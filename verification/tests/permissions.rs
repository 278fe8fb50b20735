use mcp_k8s::permissions::{Action, ActionPermissions};


// -----------------------------------------------------------------------
// Default permissions
// -----------------------------------------------------------------------

#[test]
fn default_allows_everything() {
    let perms = ActionPermissions::default();
    assert!(perms.is_action_allowed("deployment", &Action::Read));
    assert!(perms.is_action_allowed("deployment", &Action::Create));
    assert!(perms.is_action_allowed("deployment", &Action::Update));
    assert!(perms.is_action_allowed("deployment", &Action::Delete));
}

// -----------------------------------------------------------------------
// Read is always allowed
// -----------------------------------------------------------------------

#[test]
fn read_always_allowed_even_when_all_globals_disabled() {
    let perms = ActionPermissions::new(true, true, true, vec![], true, true);
    assert!(perms.is_action_allowed("deployment", &Action::Read));
    assert!(perms.is_action_allowed("pod", &Action::Read));
}

// -----------------------------------------------------------------------
// Global disable flags
// -----------------------------------------------------------------------

#[test]
fn global_disable_create() {
    let perms = ActionPermissions::new(true, false, false, vec![], true, true);
    assert!(!perms.is_action_allowed("deployment", &Action::Create));
    assert!(!perms.is_action_allowed("pod", &Action::Create));
    assert!(perms.is_action_allowed("deployment", &Action::Update));
    assert!(perms.is_action_allowed("deployment", &Action::Delete));
}

#[test]
fn global_disable_update() {
    let perms = ActionPermissions::new(false, true, false, vec![], true, true);
    assert!(!perms.is_action_allowed("deployment", &Action::Update));
    assert!(perms.is_action_allowed("deployment", &Action::Create));
    assert!(perms.is_action_allowed("deployment", &Action::Delete));
}

#[test]
fn global_disable_delete() {
    let perms = ActionPermissions::new(false, false, true, vec![], true, true);
    assert!(!perms.is_action_allowed("pod", &Action::Delete));
    assert!(perms.is_action_allowed("pod", &Action::Create));
    assert!(perms.is_action_allowed("pod", &Action::Update));
}

#[test]
fn global_disable_all_mutating() {
    let perms = ActionPermissions::new(true, true, true, vec![], true, true);
    assert!(!perms.is_action_allowed("service", &Action::Create));
    assert!(!perms.is_action_allowed("service", &Action::Update));
    assert!(!perms.is_action_allowed("service", &Action::Delete));
    assert!(perms.is_action_allowed("service", &Action::Read));
}

// -----------------------------------------------------------------------
// Per-resource overrides
// -----------------------------------------------------------------------

#[test]
fn per_resource_disable() {
    let perms = ActionPermissions::new(
        false,
        false,
        false,
        vec!["deployment-delete".to_string(), "pod-create".to_string()],
        true,
        true,
    );
    // Specific overrides block the action
    assert!(!perms.is_action_allowed("deployment", &Action::Delete));
    assert!(!perms.is_action_allowed("pod", &Action::Create));
    // Others still allowed globally
    assert!(perms.is_action_allowed("deployment", &Action::Create));
    assert!(perms.is_action_allowed("deployment", &Action::Update));
    assert!(perms.is_action_allowed("pod", &Action::Delete));
}

#[test]
fn per_resource_override_is_case_insensitive() {
    let perms = ActionPermissions::new(
        false,
        false,
        false,
        vec!["Deployment-Delete".to_string()],
        true,
        true,
    );
    assert!(!perms.is_action_allowed("deployment", &Action::Delete));
    assert!(!perms.is_action_allowed("DEPLOYMENT", &Action::Delete));
}

#[test]
fn empty_disable_actions_entries_ignored() {
    let perms = ActionPermissions::new(
        false,
        false,
        false,
        vec!["".to_string(), "  ".to_string()],
        true,
        true,
    );
    assert!(perms.is_action_allowed("deployment", &Action::Create));
    assert!(perms.is_action_allowed("deployment", &Action::Update));
    assert!(perms.is_action_allowed("deployment", &Action::Delete));
}

// -----------------------------------------------------------------------
// action_for_tool mapping
// -----------------------------------------------------------------------

#[test]
fn action_for_read_tools() {
    assert_eq!(
        ActionPermissions::action_for_tool("list_deployments"),
        Action::Read
    );
    assert_eq!(
        ActionPermissions::action_for_tool("get_deployment"),
        Action::Read
    );
    assert_eq!(
        ActionPermissions::action_for_tool("get_pod_logs"),
        Action::Read
    );
    assert_eq!(
        ActionPermissions::action_for_tool("get_build_logs"),
        Action::Read
    );
    assert_eq!(
        ActionPermissions::action_for_tool("get_metrics"),
        Action::Read
    );
    assert_eq!(
        ActionPermissions::action_for_tool("list_namespaces"),
        Action::Read
    );
    assert_eq!(ActionPermissions::action_for_tool("can_i"), Action::Read);
    assert_eq!(ActionPermissions::action_for_tool("whoami"), Action::Read);
    assert_eq!(
        ActionPermissions::action_for_tool("list_my_permissions"),
        Action::Read
    );
    assert_eq!(
        ActionPermissions::action_for_tool("get_resource_yaml"),
        Action::Read
    );
    assert_eq!(
        ActionPermissions::action_for_tool("list_ingresses"),
        Action::Read
    );
    assert_eq!(
        ActionPermissions::action_for_tool("get_events"),
        Action::Read
    );
}

#[test]
fn action_for_create_tools() {
    assert_eq!(
        ActionPermissions::action_for_tool("create_deployment"),
        Action::Create
    );
    assert_eq!(
        ActionPermissions::action_for_tool("create_service"),
        Action::Create
    );
    assert_eq!(
        ActionPermissions::action_for_tool("create_ingress"),
        Action::Create
    );
    assert_eq!(
        ActionPermissions::action_for_tool("create_pod"),
        Action::Create
    );
    assert_eq!(
        ActionPermissions::action_for_tool("apply_manifest"),
        Action::Create
    );
}

#[test]
fn action_for_update_tools() {
    assert_eq!(
        ActionPermissions::action_for_tool("update_ingress"),
        Action::Update
    );
    assert_eq!(
        ActionPermissions::action_for_tool("update_deployment"),
        Action::Update
    );
    assert_eq!(
        ActionPermissions::action_for_tool("scale_deployment"),
        Action::Update
    );
    assert_eq!(
        ActionPermissions::action_for_tool("restart_deployment"),
        Action::Update
    );
    assert_eq!(
        ActionPermissions::action_for_tool("rollback_deployment"),
        Action::Update
    );
    assert_eq!(
        ActionPermissions::action_for_tool("approve_csr"),
        Action::Update
    );
    assert_eq!(
        ActionPermissions::action_for_tool("deny_csr"),
        Action::Update
    );
    assert_eq!(
        ActionPermissions::action_for_tool("cordon_node"),
        Action::Update
    );
    assert_eq!(
        ActionPermissions::action_for_tool("uncordon_node"),
        Action::Update
    );
    assert_eq!(
        ActionPermissions::action_for_tool("drain_node"),
        Action::Update
    );
}

#[test]
fn action_for_delete_tools() {
    assert_eq!(
        ActionPermissions::action_for_tool("delete_deployment"),
        Action::Delete
    );
    assert_eq!(
        ActionPermissions::action_for_tool("delete_pod"),
        Action::Delete
    );
    assert_eq!(
        ActionPermissions::action_for_tool("delete_ingress"),
        Action::Delete
    );
    assert_eq!(
        ActionPermissions::action_for_tool("evict_pod"),
        Action::Delete
    );
}

#[test]
fn unknown_tool_defaults_to_read() {
    assert_eq!(
        ActionPermissions::action_for_tool("some_unknown_thing"),
        Action::Read
    );
}

// -----------------------------------------------------------------------
// is_tool_allowed integration
// -----------------------------------------------------------------------

#[test]
fn tool_allowed_with_defaults() {
    let perms = ActionPermissions::default();
    assert!(perms.is_tool_allowed("create_deployment"));
    assert!(perms.is_tool_allowed("delete_pod"));
    assert!(perms.is_tool_allowed("list_pods"));
}

#[test]
fn tool_disallowed_when_global_create_off() {
    let perms = ActionPermissions::new(true, false, false, vec![], true, true);
    assert!(!perms.is_tool_allowed("create_deployment"));
    assert!(!perms.is_tool_allowed("create_pod"));
    assert!(!perms.is_tool_allowed("apply_manifest"));
    // Read & update & delete still ok
    assert!(perms.is_tool_allowed("list_deployments"));
    assert!(perms.is_tool_allowed("update_ingress"));
    assert!(perms.is_tool_allowed("delete_pod"));
}

#[test]
fn tool_disallowed_when_global_delete_off() {
    let perms = ActionPermissions::new(false, false, true, vec![], true, true);
    assert!(!perms.is_tool_allowed("delete_deployment"));
    assert!(!perms.is_tool_allowed("delete_pod"));
    assert!(!perms.is_tool_allowed("evict_pod"));
    assert!(perms.is_tool_allowed("create_deployment"));
}

#[test]
fn tool_disallowed_by_per_resource_override() {
    let perms = ActionPermissions::new(
        false,
        false,
        false,
        vec!["deployment-delete".to_string()],
        true,
        true,
    );
    assert!(!perms.is_tool_allowed("delete_deployment"));
    // Other delete tools still allowed
    assert!(perms.is_tool_allowed("delete_pod"));
    // Other actions on deployment still allowed
    assert!(perms.is_tool_allowed("create_deployment"));
    assert!(perms.is_tool_allowed("update_deployment"));
}

#[test]
fn read_tools_always_allowed_regardless_of_config() {
    let perms = ActionPermissions::new(true, true, true, vec![], true, true);
    assert!(perms.is_tool_allowed("list_deployments"));
    assert!(perms.is_tool_allowed("get_pod_logs"));
    assert!(perms.is_tool_allowed("can_i"));
    assert!(perms.is_tool_allowed("whoami"));
    assert!(perms.is_tool_allowed("get_resource_yaml"));
    assert!(perms.is_tool_allowed("get_metrics"));
    assert!(perms.is_tool_allowed("get_events"));
    assert!(perms.is_tool_allowed("get_build_logs"));
}

// -----------------------------------------------------------------------
// resource_from_tool
// -----------------------------------------------------------------------

#[test]
fn resource_extraction() {
    assert_eq!(
        ActionPermissions::resource_from_tool("create_deployment"),
        "deployment"
    );
    assert_eq!(ActionPermissions::resource_from_tool("delete_pod"), "pod");
    assert_eq!(
        ActionPermissions::resource_from_tool("scale_deployment"),
        "deployment"
    );
    assert_eq!(ActionPermissions::resource_from_tool("list_pods"), "pods");
    assert_eq!(
        ActionPermissions::resource_from_tool("apply_manifest"),
        "apply_manifest"
    );
    assert_eq!(ActionPermissions::resource_from_tool("whoami"), "whoami");
}

// -----------------------------------------------------------------------
// Display for Action
// -----------------------------------------------------------------------

#[test]
fn action_display() {
    assert_eq!(Action::Read.to_string(), "read");
    assert_eq!(Action::Create.to_string(), "create");
    assert_eq!(Action::Update.to_string(), "update");
    assert_eq!(Action::Delete.to_string(), "delete");
}

// -----------------------------------------------------------------------
// apply_manifest_enabled flag
// -----------------------------------------------------------------------

#[test]
fn apply_manifest_blocked_when_disabled() {
    let perms = ActionPermissions::new(false, false, false, vec![], true, false);
    assert!(!perms.is_tool_allowed("apply_manifest"));
    // Other create tools remain allowed
    assert!(perms.is_tool_allowed("create_deployment"));
    assert!(perms.is_tool_allowed("create_service"));
}

#[test]
fn apply_manifest_allowed_when_enabled() {
    let perms = ActionPermissions::new(false, false, false, vec![], true, true);
    assert!(perms.is_tool_allowed("apply_manifest"));
}

#[test]
fn apply_manifest_blocked_by_flag_even_if_create_allowed() {
    // Create is globally allowed, but apply_manifest is specifically disabled
    let perms = ActionPermissions::new(false, false, false, vec![], true, false);
    assert!(!perms.is_tool_allowed("apply_manifest"));
    assert!(perms.is_tool_allowed("create_deployment"));
}

#[test]
fn apply_manifest_blocked_by_global_create_even_if_flag_enabled() {
    // apply_manifest flag is enabled but global create is disabled
    let perms = ActionPermissions::new(true, false, false, vec![], true, true);
    assert!(!perms.is_tool_allowed("apply_manifest"));
}

#[test]
fn default_allows_apply_manifest() {
    let perms = ActionPermissions::default();
    assert!(perms.is_tool_allowed("apply_manifest"));
}

#[test]
fn override_entries_are_trimmed_before_use() {
    let perms = ActionPermissions::new(false, false, false, vec!["  ConfigMap-Delete \t".to_string()], true, true);
    assert!(!perms.is_action_allowed("configmap", &Action::Delete));
    assert!(!perms.is_action_allowed("CONFIGMAP", &Action::Delete));
    assert!(perms.is_action_allowed("configmap", &Action::Update));
    assert!(!perms.is_tool_allowed("delete_configmap"));
}

#[test]
fn secret_decode_and_apply_manifest_flags_are_reported() {
    let p = ActionPermissions::new(false, false, false, vec![], true, false);
    assert!(p.is_secret_decode_enabled());
    assert!(!p.is_apply_manifest_enabled());
    let q = ActionPermissions::new(false, false, false, vec![], false, true);
    assert!(!q.is_secret_decode_enabled());
    assert!(q.is_apply_manifest_enabled());
}

#[test]
fn disable_entries_are_trimmed_of_unicode_white_space() {
    let p = ActionPermissions::new(
        false,
        false,
        false,
        vec!["\u{3000}Deployment-Delete\u{a0}\t".to_string(), "\u{2028}\u{85}".to_string()],
        true,
        true,
    );
    assert!(!p.is_action_allowed("deployment", &Action::Delete));
    assert!(p.is_action_allowed("deployment", &Action::Create));
}
