use mcp_k8s::resources::generic::{
    dynamic_namespace, manifest_from_fields, manifest_target, parse_api_version, read_manifest,
};

#[test]
fn parse_api_version_core() {
    let (group, version) = parse_api_version("v1");
    assert_eq!(group, "");
    assert_eq!(version, "v1");
}

#[test]
fn parse_api_version_apps() {
    let (group, version) = parse_api_version("apps/v1");
    assert_eq!(group, "apps");
    assert_eq!(version, "v1");
}

#[test]
fn parse_api_version_networking() {
    let (group, version) = parse_api_version("networking.k8s.io/v1");
    assert_eq!(group, "networking.k8s.io");
    assert_eq!(version, "v1");
}

#[test]
fn parse_api_version_splits_at_first_slash() {
    let (group, version) = parse_api_version("a/b/c");
    assert_eq!(group, "a");
    assert_eq!(version, "b/c");
}

#[test]
fn manifest_target_reads_all_fields() {
    let t = manifest_target(Some("apps/v1"), Some("Deployment"), Some("web"), Some("prod")).unwrap();
    assert_eq!(t.api_version, "apps/v1");
    assert_eq!(t.kind, "Deployment");
    assert_eq!(t.name, "web");
    assert_eq!(t.namespace.as_deref(), Some("prod"));
    let c = manifest_target(Some("v1"), Some("Namespace"), Some("team"), None).unwrap();
    assert!(c.namespace.is_none());
}

#[test]
fn manifest_target_refuses_first_missing_field() {
    assert_eq!(
        manifest_target(None, None, None, None).unwrap_err(),
        "manifest must contain 'apiVersion'"
    );
    assert_eq!(
        manifest_target(Some("v1"), None, Some("x"), None).unwrap_err(),
        "manifest must contain 'kind'"
    );
    assert_eq!(
        manifest_target(Some("v1"), Some("ConfigMap"), None, Some("prod")).unwrap_err(),
        "manifest must contain 'metadata.name'"
    );
}

#[test]
fn dynamic_namespace_by_scope() {
    assert_eq!(dynamic_namespace(true, Some("prod"), "Pod", false), Ok(Some("prod".to_string())));
    assert_eq!(dynamic_namespace(false, Some("prod"), "Node", false), Ok(None));
    assert_eq!(dynamic_namespace(false, None, "Node", true), Ok(None));
    assert_eq!(
        dynamic_namespace(true, None, "Pod", false).unwrap_err(),
        "Resource Pod is namespaced but no namespace was provided"
    );
    assert_eq!(
        dynamic_namespace(true, None, "Pod", true).unwrap_err(),
        "Resource Pod is namespaced but no namespace was provided in the manifest"
    );
}

#[test]
fn read_manifest_takes_the_target_from_json() {
    let t = read_manifest(
        r#"{"apiVersion":"apps/v1","kind":"Deployment","metadata":{"name":"web","namespace":"prod"}}"#,
    )
    .unwrap();
    assert_eq!((t.api_version.as_str(), t.kind.as_str(), t.name.as_str()), ("apps/v1", "Deployment", "web"));
    assert_eq!(t.namespace.as_deref(), Some("prod"));
    let c = read_manifest(r#"{"apiVersion":"v1","kind":"Namespace","metadata":{"name":"team"}}"#).unwrap();
    assert_eq!(c.namespace, None);
    assert_eq!(
        read_manifest(r#"{"apiVersion":"v1","metadata":{"name":"x"}}"#).unwrap_err(),
        "manifest must contain 'kind'"
    );
    assert_eq!(
        read_manifest(r#"{"apiVersion":"v1","kind":"ConfigMap","metadata":{"name":5}}"#).unwrap_err(),
        "manifest must contain 'metadata.name'"
    );
    assert_eq!(read_manifest("[]").unwrap_err(), "manifest must contain 'apiVersion'");
}

#[test]
fn read_manifest_refuses_text_that_is_not_json() {
    let e = read_manifest("apiVersion: v1\nkind: Pod").unwrap_err();
    assert!(e.starts_with("Failed to parse manifest as JSON: "), "{e}");
    assert!(e.ends_with(". If providing YAML, please convert to JSON first."), "{e}");
    assert!(e.len() > "Failed to parse manifest as JSON: . If providing YAML, please convert to JSON first.".len());
}

#[test]
fn manifest_from_fields_wraps_the_parser_message() {
    assert_eq!(
        manifest_from_fields(Err("expected value at line 1 column 1".to_string())).unwrap_err(),
        "Failed to parse manifest as JSON: expected value at line 1 column 1. If providing YAML, please convert to JSON first."
    );
    let t = manifest_from_fields(Ok((Some("v1".into()), Some("Pod".into()), Some("p".into()), None))).unwrap();
    assert_eq!(t.name, "p");
}
