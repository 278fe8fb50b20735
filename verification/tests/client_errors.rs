use mcp_k8s::client::{Error, K8sClient};
use mcp_k8s::permissions::ActionPermissions;

#[test]
fn error_messages() {
    assert_eq!(Error::NamespaceNotAllowed("kube-system".to_string()).to_tool_error(), "namespace 'kube-system' is not in the allowed list");
    assert_eq!(Error::Kube("timeout".to_string()).to_tool_error(), "kubernetes error: timeout");
    assert_eq!(Error::BadRequest("bad".to_string()).to_tool_error(), "bad");
    assert_eq!(
        Error::ActionNotAllowed { resource: "pod".to_string(), action: "delete".to_string() }.to_tool_error(),
        "action 'delete' is not allowed on resource 'pod'"
    );
}

fn offline_client(allowed: &[&str]) -> (tokio::runtime::Runtime, K8sClient) {
    let _ = rustls::crypto::ring::default_provider().install_default();
    let rt = tokio::runtime::Runtime::new().unwrap();
    let client = {
        let _guard = rt.enter();
        let config = kube::Config::new("http://127.0.0.1:9".parse().unwrap());
        kube::Client::try_from(config).unwrap()
    };
    let perms = ActionPermissions::new(false, false, false, vec![], true, true);
    let names = allowed.iter().map(|s| s.to_string()).collect();
    (rt, K8sClient::new(client, names, perms))
}

#[test]
fn namespace_allowlist_filters_and_refuses() {
    let (_rt, c) = offline_client(&["prod", "staging"]);
    assert!(c.is_namespace_allowed("prod"));
    assert!(!c.is_namespace_allowed("kube-system"));
    assert_eq!(c.namespace_gate("dev").unwrap_err(), "Namespace 'dev' is not in the allowed list");
    assert_eq!(
        c.check_namespace("dev").unwrap_err().to_tool_error(),
        "namespace 'dev' is not in the allowed list"
    );
    let all: Vec<String> = ["default", "staging", "prod", "dev"].iter().map(|s| s.to_string()).collect();
    assert_eq!(c.visible_namespaces(&all), vec!["staging".to_string(), "prod".to_string()]);
}

#[test]
fn empty_allowlist_allows_everything() {
    let (_rt, c) = offline_client(&[]);
    assert!(c.is_namespace_allowed("anything"));
    assert!(c.namespace_gate("anything").is_ok());
    let all: Vec<String> = ["a", "b"].iter().map(|s| s.to_string()).collect();
    assert_eq!(c.visible_namespaces(&all), all);
}

#[test]
fn resource_handles_respect_the_allowlist() {
    let (_rt, c) = offline_client(&["prod"]);
    assert!(c.deployments_api("prod").is_ok());
    assert!(c.pods_api("prod").is_ok());
    assert!(c.ingresses_api("prod").is_ok());
    assert!(c.services_api("prod").is_ok());
    assert!(c.jobs_api("prod").is_ok());
    assert!(c.events_api("prod").is_ok());
    match c.deployments_api("dev") {
        Err(Error::NamespaceNotAllowed(ns)) => assert_eq!(ns, "dev"),
        _ => panic!("expected a refusal"),
    }
    assert!(c.pods_api("dev").is_err());
    assert!(c.events_api("kube-system").is_err());
    let _all = c.namespaces_api();
}
