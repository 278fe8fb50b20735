use mcp_k8s::cluster::ClusterManager;

#[test]
fn manager_starts_with_its_default_cluster_active() {
    let mgr = ClusterManager::new(7u32, "test-cluster".to_string());
    assert_eq!(mgr.active_name(), "test-cluster");
    assert_eq!(mgr.active_client(), Some(&7));
    assert_eq!(mgr.list_clusters(), vec!["test-cluster".to_string()]);
}

#[test]
fn switching_to_unknown_cluster_fails() {
    let mut mgr = ClusterManager::new(1u32, "test-cluster".to_string());
    let err = mgr.switch("nonexistent").unwrap_err();
    assert_eq!(err, "cluster 'nonexistent' not found");
    assert!(err.contains("not found"));
    assert_eq!(mgr.active_name(), "test-cluster");
}

#[test]
fn added_cluster_can_be_switched_to() {
    let mut mgr = ClusterManager::new(1u32, "test-cluster".to_string());
    mgr.add_cluster("second".to_string(), 2);
    assert!(mgr.switch("second").is_ok());
    assert_eq!(mgr.active_name(), "second");
    assert_eq!(mgr.active_client(), Some(&2));
    assert!(mgr.switch("test-cluster").is_ok());
    assert_eq!(mgr.active_client(), Some(&1));
    mgr.add_cluster("second".to_string(), 3);
    let mut listed = mgr.list_clusters();
    listed.sort();
    assert_eq!(listed, vec!["second".to_string(), "test-cluster".to_string()]);
    mgr.switch("second").unwrap();
    assert_eq!(mgr.active_client(), Some(&3));
}

#[test]
fn cluster_tools_text() {
    let mut mgr = ClusterManager::new(1u32, "prod".to_string());
    mgr.add_cluster("dev".to_string(), 2);
    assert_eq!(mgr.cluster_list_text(), "* prod (active)\n  dev");
    assert_eq!(mgr.switch_cluster_tool(None).unwrap_err(), "name is required");
    assert_eq!(mgr.switch_cluster_tool(Some("qa")).unwrap_err(), "cluster 'qa' not found");
    assert_eq!(mgr.switch_cluster_tool(Some("dev")).unwrap(), "Switched active cluster to 'dev'");
    assert_eq!(mgr.cluster_list_text(), "  prod\n* dev (active)");
}

#[test]
fn test_active_name_defaults_to_initial() {
    let mgr = ClusterManager::new(1u32, "test-cluster".to_string());
    assert_eq!(mgr.active_name(), "test-cluster");
}

#[test]
fn test_list_clusters_contains_default() {
    let mgr = ClusterManager::new(1u32, "test-cluster".to_string());
    assert!(mgr.list_clusters().contains(&"test-cluster".to_string()));
}

#[test]
fn test_switch_nonexistent_returns_error() {
    let mut mgr = ClusterManager::new(1u32, "test-cluster".to_string());
    let result = mgr.switch("nonexistent");
    assert!(result.is_err());
    assert!(result.unwrap_err().contains("not found"));
}

#[test]
fn test_add_and_switch() {
    let mut mgr = ClusterManager::new(1u32, "test-cluster".to_string());
    mgr.add_cluster("second".to_string(), 2);
    assert!(mgr.switch("second").is_ok());
    assert_eq!(mgr.active_name(), "second");
    assert!(mgr.switch("test-cluster").is_ok());
    assert_eq!(mgr.active_name(), "test-cluster");
}
