use mcp_k8s::requests::{
    app_selector, managed_labels,
    clusterrolebinding_plan, cronjob_plan, daemonset_plan, deployment_plan, hpa_plan, ingress_plan,
    cronjob_update_plan, deployment_update_plan, hpa_update_plan, job_plan, limit_item_types,
    networkpolicy_patch_plan, scale_plan,
    service_plan,
    ArgItem, ArgValue,
};

fn s(k: &str, v: &str) -> (String, ArgValue) {
    (k.to_string(), ArgValue::Str(v.to_string()))
}

fn n(k: &str, v: i64) -> (String, ArgValue) {
    (k.to_string(), ArgValue::Int(v))
}

#[test]
fn deployment_plan_requires_names_and_image() {
    assert_eq!(deployment_plan(&vec![]).unwrap_err(), "namespace is required");
    assert_eq!(deployment_plan(&vec![s("namespace", "a")]).unwrap_err(), "name is required");
    assert_eq!(
        deployment_plan(&vec![s("namespace", "a"), s("name", "b"), n("image", 3)]).unwrap_err(),
        "image is required"
    );
    let p = deployment_plan(&vec![s("namespace", "prod"), s("name", "web"), s("image", "nginx")]).unwrap();
    assert_eq!((p.namespace.as_str(), p.name.as_str(), p.image.as_str()), ("prod", "web", "nginx"));
    assert_eq!(p.replicas, 1);
    assert_eq!(p.port, None);
    assert!(p.env.is_none());
    let q = deployment_plan(&vec![
        s("namespace", "prod"),
        s("name", "web"),
        s("image", "nginx"),
        n("replicas", 4),
        n("port", 8080),
        ("env".to_string(), ArgValue::Object(vec![("A".to_string(), Some("1".to_string()))])),
    ])
    .unwrap();
    assert_eq!(q.replicas, 4);
    assert_eq!(q.port, Some(8080));
    assert_eq!(q.env, Some(vec![("A".to_string(), "1".to_string())]));
    let big = deployment_plan(&vec![s("namespace", "p"), s("name", "w"), s("image", "i"), n("replicas", 4294967297)]).unwrap();
    assert_eq!(big.replicas, 1);
}

#[test]
fn service_plan_defaults_ports() {
    let p = service_plan(&vec![s("namespace", "prod"), s("name", "web")]).unwrap();
    assert_eq!((p.port, p.target_port), (80, 80));
    let q = service_plan(&vec![s("namespace", "prod"), s("name", "web"), n("port", 443)]).unwrap();
    assert_eq!((q.port, q.target_port), (443, 443));
    let r = service_plan(&vec![s("namespace", "prod"), s("name", "web"), n("port", 443), n("target_port", 8443)]).unwrap();
    assert_eq!((r.port, r.target_port), (443, 8443));
    assert_eq!(service_plan(&vec![s("name", "web")]).unwrap_err(), "namespace is required");
}

#[test]
fn ingress_plan_defaults_and_annotations() {
    let p = ingress_plan(&vec![s("namespace", "prod"), s("name", "web"), s("service_name", "svc")]).unwrap();
    assert_eq!(p.service_port, 80);
    assert_eq!(p.path, "/");
    assert_eq!(p.path_type, "Prefix");
    assert!(p.host.is_none() && p.ingress_class.is_none() && p.annotations.is_none());
    let q = ingress_plan(&vec![
        s("namespace", "prod"),
        s("name", "web"),
        s("service_name", "svc"),
        n("service_port", 8080),
        s("path", "/api"),
        s("path_type", "Exact"),
        s("host", "example.com"),
        s("ingress_class", "nginx"),
        ("annotations".to_string(), ArgValue::Object(vec![("a".to_string(), Some("b".to_string()))])),
    ])
    .unwrap();
    assert_eq!(q.service_port, 8080);
    assert_eq!((q.path.as_str(), q.path_type.as_str()), ("/api", "Exact"));
    assert_eq!(q.host.as_deref(), Some("example.com"));
    assert_eq!(q.ingress_class.as_deref(), Some("nginx"));
    assert_eq!(q.annotations, Some(vec![("a".to_string(), "b".to_string())]));
    let r = ingress_plan(&vec![
        s("namespace", "prod"),
        s("name", "web"),
        s("service_name", "svc"),
        ("annotations".to_string(), ArgValue::Object(vec![("a".to_string(), None)])),
    ])
    .unwrap();
    assert!(r.annotations.is_none());
    assert_eq!(ingress_plan(&vec![s("namespace", "prod"), s("name", "web")]).unwrap_err(), "service_name is required");
}

#[test]
fn hpa_plan_requires_target_and_bounds() {
    let base = vec![
        s("namespace", "prod"),
        s("name", "web-hpa"),
        s("scale_target_kind", "Deployment"),
        s("scale_target_name", "web"),
        s("scale_target_api_version", "apps/v1"),
    ];
    assert_eq!(hpa_plan(&base).unwrap_err(), "min_replicas is required");
    let mut with_min = base.clone();
    with_min.push(n("min_replicas", 2));
    assert_eq!(hpa_plan(&with_min).unwrap_err(), "max_replicas is required");
    let mut full = with_min.clone();
    full.push(n("max_replicas", 10));
    full.push(n("target_cpu_utilization", 75));
    let p = hpa_plan(&full).unwrap();
    assert_eq!((p.min_replicas, p.max_replicas, p.target_cpu_utilization), (2, 10, Some(75)));
    assert_eq!(p.scale_target_api_version, "apps/v1");
    assert_eq!(hpa_plan(&vec![s("namespace", "prod"), s("name", "x")]).unwrap_err(), "scale_target_kind is required");
}

fn text_list(k: &str, items: &[&str]) -> (String, ArgValue) {
    (k.to_string(), ArgValue::Array(items.iter().map(|i| ArgItem::Str(i.to_string())).collect()))
}

#[test]
fn job_plan_defaults() {
    let base = vec![s("namespace", "ci"), s("name", "build"), s("image", "alpine")];
    let p = job_plan(&base).unwrap();
    assert_eq!(p.restart_policy, "Never");
    assert_eq!(p.backoff_limit, 6);
    assert!(p.command.is_none());
    let mut more = base.clone();
    more.push(text_list("command", &["echo", "hi"]));
    more.push(s("restart_policy", "OnFailure"));
    more.push(n("backoff_limit", 2));
    let q = job_plan(&more).unwrap();
    assert_eq!(q.command, Some(vec!["echo".to_string(), "hi".to_string()]));
    assert_eq!((q.restart_policy.as_str(), q.backoff_limit), ("OnFailure", 2));
    let mut mixed = base.clone();
    mixed.push(("command".to_string(), ArgValue::Array(vec![ArgItem::Str("a".to_string()), ArgItem::Other])));
    assert!(job_plan(&mixed).unwrap().command.is_none());
    assert_eq!(job_plan(&vec![s("namespace", "ci"), s("name", "b")]).unwrap_err(), "image is required");
}

#[test]
fn cronjob_plan_requires_schedule() {
    let p = cronjob_plan(&vec![s("namespace", "ops"), s("name", "nightly"), s("schedule", "0 2 * * *"), s("image", "busybox")]).unwrap();
    assert_eq!(p.schedule, "0 2 * * *");
    assert_eq!(p.restart_policy, "OnFailure");
    assert_eq!(cronjob_plan(&vec![s("namespace", "ops"), s("name", "nightly"), s("image", "busybox")]).unwrap_err(), "schedule is required");
}

#[test]
fn daemonset_plan_port_is_optional() {
    let p = daemonset_plan(&vec![s("namespace", "kube-system"), s("name", "agent"), s("image", "agent:1")]).unwrap();
    assert_eq!(p.port, None);
    let q = daemonset_plan(&vec![s("namespace", "kube-system"), s("name", "agent"), s("image", "agent:1"), n("port", 9100)]).unwrap();
    assert_eq!(q.port, Some(9100));
}

fn obj(k: &str, members: &[(&str, &str)]) -> (String, ArgValue) {
    (k.to_string(), ArgValue::Object(members.iter().map(|(a, b)| (a.to_string(), Some(b.to_string()))).collect()))
}

#[test]
fn clusterrolebinding_plan_reads_role_ref_and_subjects() {
    let subjects = ArgValue::Array(vec![
        ArgItem::Object(vec![("kind".to_string(), Some("ServiceAccount".to_string())), ("name".to_string(), Some("default".to_string())), ("namespace".to_string(), Some("kube-system".to_string()))]),
        ArgItem::Object(vec![("name".to_string(), Some("alice".to_string()))]),
        ArgItem::Other,
    ]);
    let args = vec![s("name", "b"), obj("role_ref", &[("kind", "ClusterRole"), ("name", "view")]), ("subjects".to_string(), subjects)];
    let p = clusterrolebinding_plan(&args).unwrap();
    assert_eq!((p.role_ref_kind.as_str(), p.role_ref_name.as_str()), ("ClusterRole", "view"));
    assert_eq!(p.role_ref_api_group, "rbac.authorization.k8s.io");
    assert_eq!(p.subjects.len(), 3);
    assert_eq!((p.subjects[0].kind.as_str(), p.subjects[0].api_group.as_str()), ("ServiceAccount", ""));
    assert_eq!(p.subjects[0].namespace.as_deref(), Some("kube-system"));
    assert_eq!((p.subjects[1].kind.as_str(), p.subjects[1].name.as_str()), ("User", "alice"));
    assert_eq!(p.subjects[1].api_group, "rbac.authorization.k8s.io");
    assert_eq!((p.subjects[2].kind.as_str(), p.subjects[2].name.as_str()), ("User", ""));
}

#[test]
fn clusterrolebinding_plan_refusals() {
    assert_eq!(clusterrolebinding_plan(&vec![]).unwrap_err(), "name is required");
    assert_eq!(clusterrolebinding_plan(&vec![s("name", "b")]).unwrap_err(), "role_ref is required");
    assert_eq!(
        clusterrolebinding_plan(&vec![s("name", "b"), ("role_ref".to_string(), ArgValue::Other)]).unwrap_err(),
        "role_ref.kind is required"
    );
    assert_eq!(
        clusterrolebinding_plan(&vec![s("name", "b"), obj("role_ref", &[("kind", "ClusterRole")])]).unwrap_err(),
        "role_ref.name is required"
    );
    assert_eq!(
        clusterrolebinding_plan(&vec![s("name", "b"), obj("role_ref", &[("kind", "ClusterRole"), ("name", "v")]), s("subjects", "x")]).unwrap_err(),
        "subjects is required and must be an array"
    );
}

#[test]
fn deployment_update_plan_needs_a_change() {
    assert_eq!(deployment_update_plan(&vec![s("name", "web")]).unwrap_err(), "namespace is required");
    assert_eq!(deployment_update_plan(&vec![s("namespace", "prod")]).unwrap_err(), "name is required");
    assert_eq!(
        deployment_update_plan(&vec![s("namespace", "prod"), s("name", "web")]).unwrap_err(),
        "At least one of 'image', 'replicas', or 'env' must be provided"
    );
    let p = deployment_update_plan(&vec![s("namespace", "prod"), s("name", "web"), s("image", "nginx:2")]).unwrap();
    assert_eq!(p.image.as_deref(), Some("nginx:2"));
    assert_eq!(p.replicas, None);
    assert!(p.env.is_none());
    let q = deployment_update_plan(&vec![
        s("namespace", "prod"),
        s("name", "web"),
        n("replicas", 5),
        ("env".to_string(), ArgValue::Object(vec![("LOG".to_string(), Some("debug".to_string()))])),
    ])
    .unwrap();
    assert_eq!((q.namespace.as_str(), q.name.as_str()), ("prod", "web"));
    assert_eq!(q.image, None);
    assert_eq!(q.replicas, Some(5));
    assert_eq!(q.env, Some(vec![("LOG".to_string(), "debug".to_string())]));
}

#[test]
fn scale_plan_requires_replicas() {
    assert_eq!(scale_plan(&vec![s("name", "web"), n("replicas", 2)]).unwrap_err(), "namespace is required");
    assert_eq!(scale_plan(&vec![s("namespace", "prod"), n("replicas", 2)]).unwrap_err(), "name is required");
    assert_eq!(scale_plan(&vec![s("namespace", "prod"), s("name", "web")]).unwrap_err(), "replicas is required");
    assert_eq!(
        scale_plan(&vec![s("namespace", "prod"), s("name", "web"), s("replicas", "3")]).unwrap_err(),
        "replicas is required"
    );
    let p = scale_plan(&vec![s("namespace", "prod"), s("name", "web"), n("replicas", 0)]).unwrap();
    assert_eq!((p.namespace.as_str(), p.name.as_str(), p.replicas), ("prod", "web", 0));
}

#[test]
fn cronjob_update_plan_takes_optional_fields() {
    assert_eq!(cronjob_update_plan(&vec![s("name", "nightly")]).unwrap_err(), "namespace is required");
    let p = cronjob_update_plan(&vec![s("namespace", "ops"), s("name", "nightly")]).unwrap();
    assert!(p.schedule.is_none() && p.suspend.is_none() && p.image.is_none());
    let q = cronjob_update_plan(&vec![
        s("namespace", "ops"),
        s("name", "nightly"),
        s("schedule", "0 3 * * *"),
        ("suspend".to_string(), ArgValue::Bool(true)),
        s("image", "backup:2"),
    ])
    .unwrap();
    assert_eq!(q.schedule.as_deref(), Some("0 3 * * *"));
    assert_eq!(q.suspend, Some(true));
    assert_eq!(q.image.as_deref(), Some("backup:2"));
    let r = cronjob_update_plan(&vec![s("namespace", "ops"), s("name", "nightly"), s("suspend", "yes")]).unwrap();
    assert_eq!(r.suspend, None);
}

#[test]
fn hpa_update_plan_cuts_bounds_to_i32() {
    assert_eq!(hpa_update_plan(&vec![s("namespace", "prod")]).unwrap_err(), "name is required");
    let p = hpa_update_plan(&vec![s("namespace", "prod"), s("name", "web"), n("min_replicas", 2)]).unwrap();
    assert_eq!((p.min_replicas, p.max_replicas), (Some(2), None));
    let q = hpa_update_plan(&vec![s("namespace", "prod"), s("name", "web"), n("max_replicas", 4294967306)]).unwrap();
    assert_eq!(q.max_replicas, Some(10));
}

#[test]
fn networkpolicy_patch_plan_keeps_given_fields_in_order() {
    let none = networkpolicy_patch_plan(&vec![s("namespace", "prod"), s("name", "deny-all")]);
    assert_eq!(
        none.unwrap_err(),
        "At least one of pod_selector, policy_types, ingress, or egress must be provided"
    );
    let p = networkpolicy_patch_plan(&vec![
        ("egress".to_string(), ArgValue::Array(vec![])),
        s("name", "deny-all"),
        ("pod_selector".to_string(), ArgValue::Object(vec![])),
    ])
    .unwrap();
    assert_eq!(
        p,
        vec![
            ("pod_selector".to_string(), "podSelector".to_string()),
            ("egress".to_string(), "egress".to_string()),
        ]
    );
    let q = networkpolicy_patch_plan(&vec![("policy_types".to_string(), ArgValue::Other)]).unwrap();
    assert_eq!(q, vec![("policy_types".to_string(), "policyTypes".to_string())]);
}

#[test]
fn limit_item_types_checks_each_item() {
    assert_eq!(limit_item_types(&vec![s("name", "lr")]).unwrap_err(), "limits is required");
    assert_eq!(limit_item_types(&vec![s("limits", "x")]).unwrap_err(), "limits must be an array");
    let container = ArgItem::Object(vec![("type".to_string(), Some("Container".to_string())), ("max".to_string(), None)]);
    let pod = ArgItem::Object(vec![("type".to_string(), Some("Pod".to_string()))]);
    let ok = limit_item_types(&vec![("limits".to_string(), ArgValue::Array(vec![container.clone(), pod]))]).unwrap();
    assert_eq!(ok, vec!["Container".to_string(), "Pod".to_string()]);
    let untyped = ArgItem::Object(vec![("max".to_string(), None)]);
    assert_eq!(
        limit_item_types(&vec![("limits".to_string(), ArgValue::Array(vec![container, untyped]))]).unwrap_err(),
        "each limit item must have a type"
    );
    assert_eq!(
        limit_item_types(&vec![("limits".to_string(), ArgValue::Array(vec![ArgItem::Str("Pod".to_string())]))]).unwrap_err(),
        "each limit item must have a type"
    );
    assert!(limit_item_types(&vec![("limits".to_string(), ArgValue::Array(vec![]))]).unwrap().is_empty());
}

fn pairs(v: &[(&str, &str)]) -> Vec<(String, String)> {
    v.iter().map(|(a, b)| (a.to_string(), b.to_string())).collect()
}

#[test]
fn created_objects_carry_the_managed_labels() {
    assert_eq!(
        managed_labels(Some("web")),
        pairs(&[("app", "web"), ("app.kubernetes.io/managed-by", "mcp-k8s")])
    );
    assert_eq!(managed_labels(None), pairs(&[("app.kubernetes.io/managed-by", "mcp-k8s")]));
    assert_eq!(app_selector("api"), pairs(&[("app", "api")]));
}

#[test]
fn deployment_plan_labels_selector_and_container() {
    let p = deployment_plan(&vec![s("namespace", "prod"), s("name", "web"), s("image", "nginx")]).unwrap();
    assert_eq!(p.labels, pairs(&[("app", "web"), ("app.kubernetes.io/managed-by", "mcp-k8s")]));
    assert_eq!(p.selector, pairs(&[("app", "web")]));
    assert_eq!(p.container_name, "web");
    let full = vec![
        s("namespace", "prod"),
        s("name", "web-hpa"),
        s("scale_target_kind", "Deployment"),
        s("scale_target_name", "web"),
        s("scale_target_api_version", "apps/v1"),
        n("min_replicas", 1),
        n("max_replicas", 3),
    ];
    assert_eq!(hpa_plan(&full).unwrap().labels, pairs(&[("app.kubernetes.io/managed-by", "mcp-k8s")]));
}
