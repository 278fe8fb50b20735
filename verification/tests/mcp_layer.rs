use mcp_k8s::mcp::{
    is_cluster_tool, method_not_found, parse_resource_uri, prompt_description_text,
    prompt_message, rpc_method, split_segments, tool_call_outcome, tool_gate, visible_tools,
    RpcMethod, METHOD_NOT_FOUND, SERVER_ERROR,
};
use mcp_k8s::permissions::ActionPermissions;

fn names(items: &[&str]) -> Vec<String> {
    items.iter().map(|s| s.to_string()).collect()
}

#[test]
fn unknown_method_error() {
    let e = method_not_found("foo/bar");
    assert_eq!(e.code, METHOD_NOT_FOUND);
    assert_eq!(e.code, -32601);
    assert_eq!(e.message, "Method not found: foo/bar");
}

#[test]
fn methods_are_routed_by_name() {
    assert_eq!(rpc_method("initialize"), RpcMethod::Initialize);
    assert_eq!(rpc_method("notifications/initialized"), RpcMethod::Initialized);
    assert_eq!(rpc_method("ping"), RpcMethod::Ping);
    assert_eq!(rpc_method("tools/list"), RpcMethod::ToolsList);
    assert_eq!(rpc_method("tools/call"), RpcMethod::ToolsCall);
    assert_eq!(rpc_method("resources/list"), RpcMethod::ResourcesList);
    assert_eq!(rpc_method("resources/read"), RpcMethod::ResourcesRead);
    assert_eq!(rpc_method("prompts/list"), RpcMethod::PromptsList);
    assert_eq!(rpc_method("prompts/get"), RpcMethod::PromptsGet);
    assert_eq!(rpc_method("tools/delete"), RpcMethod::Unknown);
}

#[test]
fn gate_refuses_disallowed_tool_with_its_action() {
    let perms = ActionPermissions::new(true, false, false, vec![], true, true);
    assert_eq!(
        tool_gate(&perms, "create_deployment").unwrap(),
        "action 'create' is not allowed on this tool: create_deployment"
    );
    assert!(tool_gate(&perms, "list_pods").is_none());
    let no_manifest = ActionPermissions::new(false, false, false, vec![], true, false);
    assert_eq!(
        tool_gate(&no_manifest, "apply_manifest").unwrap(),
        "action 'create' is not allowed on this tool: apply_manifest"
    );
    let no_delete = ActionPermissions::new(false, false, false, vec!["deployment-delete".to_string()], true, true);
    assert_eq!(
        tool_gate(&no_delete, "delete_deployment").unwrap(),
        "action 'delete' is not allowed on this tool: delete_deployment"
    );
    assert!(tool_gate(&no_delete, "delete_pod").is_none());
}

#[test]
fn cluster_tools_are_recognised() {
    assert!(is_cluster_tool("list_clusters"));
    assert!(is_cluster_tool("switch_cluster"));
    assert!(is_cluster_tool("get_active_cluster"));
    assert!(!is_cluster_tool("list_pods"));
}

#[test]
fn tool_outcomes_are_answered() {
    assert_eq!(tool_call_outcome("t", Some(Ok("done".to_string()))).unwrap(), "done");
    let e = tool_call_outcome("t", Some(Err("boom".to_string()))).unwrap_err();
    assert_eq!((e.code, e.message.as_str()), (SERVER_ERROR, "boom"));
    let u = tool_call_outcome("not_a_real_tool", None).unwrap_err();
    assert_eq!(u.code, -32000);
    assert_eq!(u.message, "Unknown tool: not_a_real_tool");
}

#[test]
fn listed_tools_follow_permissions() {
    let all = names(&["list_pods", "create_deployment", "delete_deployment", "delete_pod", "scale_deployment", "apply_manifest", "get_metrics"]);
    let read_only = ActionPermissions::new(true, true, true, vec![], true, true);
    assert_eq!(visible_tools(&read_only, &all), names(&["list_pods", "get_metrics"]));
    let no_create = ActionPermissions::new(true, false, false, vec![], true, true);
    assert_eq!(
        visible_tools(&no_create, &all),
        names(&["list_pods", "delete_deployment", "delete_pod", "scale_deployment", "get_metrics"])
    );
    let per_resource = ActionPermissions::new(false, false, false, vec!["deployment-delete".to_string()], true, true);
    let shown = visible_tools(&per_resource, &all);
    assert!(!shown.contains(&"delete_deployment".to_string()));
    assert!(shown.contains(&"delete_pod".to_string()));
    for name in &all {
        assert_eq!(shown.contains(name), tool_gate(&per_resource, name).is_none());
    }
}

#[test]
fn segments_split_like_str_split() {
    assert_eq!(split_segments("a/b/c"), names(&["a", "b", "c"]));
    assert_eq!(split_segments(""), names(&[""]));
    assert_eq!(split_segments("/x/"), names(&["", "x", ""]));
}

#[test]
fn resource_uris_are_parsed() {
    let r = parse_resource_uri("k8s://default/pods/web-1").unwrap();
    assert_eq!(r.namespace.as_deref(), Some("default"));
    assert_eq!((r.api_version.as_str(), r.kind.as_str(), r.name.as_str()), ("v1", "Pod", "web-1"));
    let n = parse_resource_uri("k8s://cluster/nodes/node-1").unwrap();
    assert!(n.namespace.is_none());
    assert_eq!(n.kind, "Node");
    let i = parse_resource_uri("k8s://prod/ingresses/web").unwrap();
    assert_eq!(i.api_version, "networking.k8s.io/v1");
    assert_eq!(
        parse_resource_uri("http://x/pods/y").unwrap_err(),
        "invalid resource URI (must start with k8s://): http://x/pods/y"
    );
    assert_eq!(
        parse_resource_uri("k8s://default/pods").unwrap_err(),
        "invalid resource URI format: k8s://default/pods"
    );
    assert_eq!(
        parse_resource_uri("k8s://a/pods/b/c").unwrap_err(),
        "invalid resource URI format: k8s://a/pods/b/c"
    );
    assert_eq!(parse_resource_uri("k8s://a/widgets/b").unwrap_err(), "unsupported resource type: widgets");
}

#[test]
fn prompts_use_given_or_default_namespace() {
    let t = prompt_message("review-namespace-rbac", None, None).unwrap();
    assert!(t.starts_with("Review the RBAC configuration for namespace 'default'. Use list_roles"));
    let d = prompt_message("diagnose-pod", Some("prod"), Some("web-1")).unwrap();
    assert!(d.starts_with("Diagnose the pod 'web-1' in namespace 'prod'. Use the get_pod tool"));
    assert!(d.contains("Use get_events with the namespace 'prod' and resource_name 'web-1' to check"));
    assert!(d.ends_with("Identify the root cause and suggest a concrete fix."));
    let r = prompt_message("resource-usage-report", Some("team"), None).unwrap();
    assert_eq!(r.matches("'team'").count(), 3);
    let h = prompt_message("cluster-health-check", Some("ignored"), None).unwrap();
    assert!(h.starts_with("Perform a cluster health check. Use list_nodes"));
    assert!(!h.contains("ignored"));
    assert_eq!(prompt_message("nope", None, None).unwrap_err(), "unknown prompt: nope");
    assert_eq!(prompt_description_text("diagnose-pod"), "Prompt: diagnose-pod");
}

#[test]
fn denied_tool_returns_error() {
    let perms = ActionPermissions::new(true, false, false, vec![], true, true);
    let result = tool_call_outcome("create_deployment", tool_gate(&perms, "create_deployment").map(Err));
    assert!(matches!(result, Err(_)), "denied tool should return an error");
}
