use std::collections::BTreeMap;

use mcp_k8s::extract::{primary_image, replica_counts};
use mcp_k8s::model::{
    ConditionInfo, ContainerInfo, DeploymentInfo, DeploymentSpecInfo, DeploymentStatusInfo, EnvVarInfo,
    ObjectMetaInfo, ObjectReferenceInfo,
};
use mcp_k8s::requests::{env_from_args, ArgValue};
use mcp_k8s::resources::admission::{
    policy_summary, webhook_config_summary, PolicyInfo, WebhookConfigInfo,
};
use mcp_k8s::resources::cluster_trust_bundle::{
    extract_summary as bundle_summary, ClusterTrustBundleInfo,
};
use mcp_k8s::resources::clusterrole::{
    extract_rules, parse_policy_rules, rules_count, ClusterRoleInfo, PolicyRuleArg, PolicyRuleInfo,
};
use mcp_k8s::resources::clusterrolebinding::{
    extract_subjects, extract_summary as binding_summary, ClusterRoleBindingInfo, SubjectInfo,
};
use mcp_k8s::resources::configmap::{extract_summary as configmap_summary, ConfigMapInfo};
use mcp_k8s::resources::crd::{crd_summary, CrdInfo};
use mcp_k8s::resources::csr::{
    check_pending, condition_summaries, csr_status_label, extract_summary as csr_summary,
    CsrConditionInfo, CsrInfo,
};
use mcp_k8s::resources::deployment::extract_summary as deployment_list_summary;
use mcp_k8s::resources::device_resources::{
    extract_claim_summary, extract_claim_template_summary, extract_device_class_summary,
    extract_slice_summary, ResourceClaimInfo, ResourceSliceInfo,
};
use mcp_k8s::resources::endpoints::{
    extract_summary as endpoints_summary, EndpointSubsetInfo, EndpointsInfo,
};
use mcp_k8s::resources::endpointslice::{
    extract_endpoint_detail, extract_summary as slice_summary, EndpointConditionsInfo,
    EndpointInfo, EndpointPortInfo, EndpointSliceInfo,
};
use mcp_k8s::resources::flowcontrol::{
    extract_flowschema_summary, extract_prioritylevel_summary, FlowSchemaInfo, FlowSchemaSpecInfo,
    PriorityLevelInfo, PriorityLevelSpecInfo,
};
use mcp_k8s::resources::hpa::{extract_detail as hpa_detail, extract_summary as hpa_summary, HpaInfo, HpaSpecInfo, HpaStatusInfo};
use mcp_k8s::resources::ingressclass::{
    extract_summary as ingressclass_summary, IngressClassInfo, IngressClassSpecInfo,
    ParametersInfo,
};
use mcp_k8s::resources::ip_networking::{
    extract_ipaddress_summary, extract_servicecidr_summary, IPAddressInfo, ParentRefInfo,
    ServiceCIDRInfo,
};
use mcp_k8s::resources::lease::{extract_summary as lease_summary, LeaseInfo, LeaseSpecInfo};
use mcp_k8s::resources::limitrange::{
    extract_limit_item, extract_summary as limitrange_summary, LimitItemInfo, LimitRangeInfo,
};
use mcp_k8s::resources::namespace::{extract_detail as namespace_detail, NamespaceInfo};

fn named(name: &str) -> ObjectMetaInfo {
    ObjectMetaInfo { name: Some(name.to_string()), ..Default::default() }
}

fn meta(name: &str, namespace: &str) -> ObjectMetaInfo {
    ObjectMetaInfo {
        name: Some(name.to_string()),
        namespace: Some(namespace.to_string()),
        ..Default::default()
    }
}

fn map(pairs: &[(&str, &str)]) -> BTreeMap<String, String> {
    pairs.iter().map(|(k, v)| (k.to_string(), v.to_string())).collect()
}

fn strings(items: &[&str]) -> Vec<String> {
    items.iter().map(|s| s.to_string()).collect()
}

// ----- certificate signing requests -----

fn make_test_csr(name: &str, condition_type: Option<&str>) -> CsrInfo {
    let conditions = condition_type.map(|ct| {
        vec![CsrConditionInfo {
            type_: ct.to_string(),
            status: "True".to_string(),
            reason: Some(format!("{ct}ViaMcpK8s")),
            message: Some(format!("{ct} via mcp-k8s")),
            last_update_time: None,
        }]
    });
    let mut m = named(name);
    m.labels = Some(map(&[("app", "test")]));
    m.annotations = Some(map(&[("note", "testing")]));
    CsrInfo {
        metadata: m,
        signer_name: "kubernetes.io/kube-apiserver-client".to_string(),
        username: Some("system:node:test-node".to_string()),
        usages: Some(strings(&["client auth", "digital signature"])),
        conditions,
    }
}

#[test]
fn extract_summary_pending_csr() {
    let summary = csr_summary(&make_test_csr("pending-csr", None));
    assert_eq!(summary.name, "pending-csr");
    assert_eq!(summary.signer_name, "kubernetes.io/kube-apiserver-client");
    assert_eq!(summary.requestor.as_deref(), Some("system:node:test-node"));
    assert_eq!(summary.status, "Pending");
}

#[test]
fn extract_summary_approved_csr() {
    let summary = csr_summary(&make_test_csr("approved-csr", Some("Approved")));
    assert_eq!(summary.name, "approved-csr");
    assert_eq!(summary.status, "Approved");
}

#[test]
fn extract_summary_denied_csr() {
    let summary = csr_summary(&make_test_csr("denied-csr", Some("Denied")));
    assert_eq!(summary.name, "denied-csr");
    assert_eq!(summary.status, "Denied");
}

#[test]
fn extract_summary_default_spec() {
    let csr = CsrInfo { metadata: named("default-spec-csr"), ..Default::default() };
    let summary = csr_summary(&csr);
    assert_eq!(summary.name, "default-spec-csr");
    assert_eq!(summary.signer_name, "");
    assert!(summary.requestor.is_none());
    assert_eq!(summary.status, "Pending");
    assert!(summary.created_at.is_none());
}

#[test]
fn csr_status_label_with_no_conditions() {
    let csr = CsrInfo { conditions: None, ..Default::default() };
    assert_eq!(csr_status_label(&csr), "Pending");
}

#[test]
fn csr_status_label_with_empty_conditions() {
    let csr = CsrInfo { conditions: Some(vec![]), ..Default::default() };
    assert_eq!(csr_status_label(&csr), "Pending");
}

#[test]
fn csr_conditions_are_reported_in_order() {
    let csr = make_test_csr("c", Some("Approved"));
    let conds = condition_summaries(&csr);
    assert_eq!(conds.len(), 1);
    assert_eq!(conds[0].condition_type, "Approved");
    assert_eq!(conds[0].reason.as_deref(), Some("ApprovedViaMcpK8s"));
}

#[test]
fn decided_csr_cannot_be_approved_again() {
    assert!(check_pending("fresh", &make_test_csr("fresh", None)).is_ok());
    assert_eq!(
        check_pending("done", &make_test_csr("done", Some("Approved"))).unwrap_err(),
        "CSR 'done' is already Approved"
    );
    assert_eq!(
        check_pending("no", &make_test_csr("no", Some("Denied"))).unwrap_err(),
        "CSR 'no' is already Denied"
    );
}

// ----- config maps -----

#[test]
fn extract_summary_from_configmap() {
    let mut m = meta("test-cm", "prod");
    m.labels = Some(map(&[("env", "production")]));
    let cm = ConfigMapInfo {
        metadata: m,
        data: Some(map(&[
            ("config.yaml", "key: value"),
            ("settings.json", "{}"),
            ("README", "hello"),
        ])),
    };
    let summary = configmap_summary(&cm);
    assert_eq!(summary.name, "test-cm");
    assert_eq!(summary.namespace, "prod");
    assert_eq!(summary.data_keys.len(), 3);
    assert!(summary.data_keys.contains(&"config.yaml".to_string()));
    assert!(summary.data_keys.contains(&"settings.json".to_string()));
    assert!(summary.data_keys.contains(&"README".to_string()));
    assert!(summary.created_at.is_none());
    assert_eq!(summary.labels.get("env").unwrap(), "production");
}

#[test]
fn extract_summary_from_empty_configmap() {
    let cm = ConfigMapInfo { metadata: meta("empty-cm", "default"), data: None };
    let summary = configmap_summary(&cm);
    assert_eq!(summary.name, "empty-cm");
    assert_eq!(summary.namespace, "default");
    assert!(summary.data_keys.is_empty());
    assert!(summary.created_at.is_none());
    assert!(summary.labels.is_empty());
}

#[test]
fn configmap_data_keys_come_in_key_order() {
    let cm = ConfigMapInfo { metadata: named("c"), data: Some(map(&[("b", "1"), ("a", "2"), ("C", "3")])) };
    assert_eq!(configmap_summary(&cm).data_keys, vec!["C", "a", "b"]);
}

// ----- cluster roles and bindings -----

fn make_test_clusterrole() -> ClusterRoleInfo {
    ClusterRoleInfo {
        metadata: named("test-role"),
        rules: Some(vec![
            PolicyRuleInfo {
                api_groups: Some(strings(&[""])),
                resources: Some(strings(&["pods", "services"])),
                verbs: strings(&["get", "list", "watch"]),
            },
            PolicyRuleInfo {
                api_groups: Some(strings(&["apps"])),
                resources: Some(strings(&["deployments"])),
                verbs: strings(&["get", "list", "create", "update"]),
            },
        ]),
    }
}

#[test]
fn extract_rules_from_clusterrole() {
    let rules = extract_rules(&make_test_clusterrole());
    assert_eq!(rules.len(), 2);
    assert_eq!(rules[0].api_groups, vec![""]);
    assert_eq!(rules[0].resources, vec!["pods", "services"]);
    assert_eq!(rules[0].verbs, vec!["get", "list", "watch"]);
    assert_eq!(rules[1].api_groups, vec!["apps"]);
    assert_eq!(rules[1].resources, vec!["deployments"]);
    assert_eq!(rules[1].verbs, vec!["get", "list", "create", "update"]);
    assert_eq!(rules_count(&make_test_clusterrole()), 2);
}

#[test]
fn extract_rules_from_empty_clusterrole() {
    let cr = ClusterRoleInfo { metadata: named("no-rules"), rules: None };
    assert!(extract_rules(&cr).is_empty());
    assert_eq!(rules_count(&cr), 0);
}

#[test]
fn parse_policy_rules_valid() {
    let input = Some(vec![
        PolicyRuleArg {
            api_groups: Some(strings(&[""])),
            resources: Some(strings(&["pods"])),
            verbs: Some(strings(&["get", "list"])),
        },
        PolicyRuleArg {
            api_groups: Some(strings(&["apps"])),
            resources: Some(strings(&["deployments"])),
            verbs: Some(strings(&["create", "update", "delete"])),
        },
    ]);
    let rules = parse_policy_rules(&input).unwrap();
    assert_eq!(rules.len(), 2);
    assert_eq!(rules[0].api_groups.as_ref().unwrap(), &vec!["".to_string()]);
    assert_eq!(rules[0].resources.as_ref().unwrap(), &vec!["pods".to_string()]);
    assert_eq!(rules[0].verbs, vec!["get", "list"]);
    assert_eq!(rules[1].api_groups.as_ref().unwrap(), &vec!["apps".to_string()]);
    assert_eq!(rules[1].resources.as_ref().unwrap(), &vec!["deployments".to_string()]);
    assert_eq!(rules[1].verbs, vec!["create", "update", "delete"]);
}

#[test]
fn parse_policy_rules_missing_verbs() {
    let input = Some(vec![PolicyRuleArg {
        api_groups: Some(strings(&[""])),
        resources: Some(strings(&["pods"])),
        verbs: None,
    }]);
    let result = parse_policy_rules(&input);
    assert!(result.is_err());
    assert_eq!(result.unwrap_err(), "each rule must have verbs");
}

#[test]
fn parse_policy_rules_not_array() {
    let result = parse_policy_rules(&None);
    assert!(result.is_err());
    assert_eq!(result.unwrap_err(), "rules must be an array");
}

#[test]
fn parse_policy_rules_defaults_groups_and_resources() {
    let input = Some(vec![PolicyRuleArg { api_groups: None, resources: None, verbs: Some(strings(&["get"])) }]);
    let rules = parse_policy_rules(&input).unwrap();
    assert_eq!(rules[0].api_groups, Some(vec![]));
    assert_eq!(rules[0].resources, Some(vec![]));
}

fn make_test_clusterrolebinding() -> ClusterRoleBindingInfo {
    ClusterRoleBindingInfo {
        metadata: named("test-binding"),
        role_ref_kind: "ClusterRole".to_string(),
        role_ref_name: "cluster-admin".to_string(),
        subjects: Some(vec![
            SubjectInfo { kind: "User".to_string(), name: "admin@example.com".to_string(), namespace: None },
            SubjectInfo {
                kind: "ServiceAccount".to_string(),
                name: "default".to_string(),
                namespace: Some("kube-system".to_string()),
            },
            SubjectInfo { kind: "Group".to_string(), name: "system:masters".to_string(), namespace: None },
        ]),
    }
}

#[test]
fn extract_summary_from_clusterrolebinding() {
    let summary = binding_summary(&make_test_clusterrolebinding());
    assert_eq!(summary.name, "test-binding");
    assert_eq!(summary.role_ref_kind, "ClusterRole");
    assert_eq!(summary.role_ref_name, "cluster-admin");
    assert_eq!(summary.subjects_count, 3);
    assert!(summary.created_at.is_none());
}

#[test]
fn extract_subjects_from_clusterrolebinding() {
    let subjects = extract_subjects(&make_test_clusterrolebinding());
    assert_eq!(subjects.len(), 3);
    assert_eq!(subjects[0].kind, "User");
    assert_eq!(subjects[0].name, "admin@example.com");
    assert!(subjects[0].namespace.is_none());
    assert_eq!(subjects[1].kind, "ServiceAccount");
    assert_eq!(subjects[1].name, "default");
    assert_eq!(subjects[1].namespace.as_deref(), Some("kube-system"));
    assert_eq!(subjects[2].kind, "Group");
    assert_eq!(subjects[2].name, "system:masters");
    assert!(subjects[2].namespace.is_none());
}

#[test]
fn extract_subjects_from_empty_clusterrolebinding() {
    let crb = ClusterRoleBindingInfo {
        metadata: named("empty-binding"),
        role_ref_kind: "ClusterRole".to_string(),
        role_ref_name: "view".to_string(),
        subjects: None,
    };
    let summary = binding_summary(&crb);
    assert_eq!(summary.name, "empty-binding");
    assert_eq!(summary.subjects_count, 0);
    assert!(extract_subjects(&crb).is_empty());
}

#[test]
fn extract_summary_empty_metadata() {
    let crb = ClusterRoleBindingInfo {
        metadata: ObjectMetaInfo::default(),
        role_ref_kind: "ClusterRole".to_string(),
        role_ref_name: "edit".to_string(),
        subjects: None,
    };
    let summary = binding_summary(&crb);
    assert_eq!(summary.name, "");
    assert_eq!(summary.role_ref_kind, "ClusterRole");
    assert_eq!(summary.role_ref_name, "edit");
    assert_eq!(summary.subjects_count, 0);
    assert!(summary.created_at.is_none());
}

// ----- deployments (list view) -----

fn make_test_deployment() -> DeploymentInfo {
    let mut m = meta("test-dep", "default");
    m.labels = Some(map(&[("app", "test-dep"), ("app.kubernetes.io/managed-by", "mcp-k8s")]));
    DeploymentInfo {
        metadata: m,
        spec: Some(DeploymentSpecInfo {
            replicas: Some(3),
            containers: Some(vec![ContainerInfo {
                name: "test-dep".to_string(),
                image: Some("nginx:latest".to_string()),
                env: Some(vec![EnvVarInfo { name: "FOO".to_string(), value: Some("bar".to_string()) }]),
                ..Default::default()
            }]),
            match_labels: Some(map(&[("app", "test-dep")])),
        }),
        status: Some(DeploymentStatusInfo {
            ready_replicas: Some(2),
            available_replicas: Some(2),
            updated_replicas: Some(3),
            conditions: None,
        }),
    }
}

#[test]
fn extract_summary_from_deployment() {
    let summary = deployment_list_summary(&make_test_deployment());
    assert_eq!(summary.name, "test-dep");
    assert_eq!(summary.namespace, "default");
    assert_eq!(summary.image, "nginx:latest");
    assert_eq!(summary.replicas.desired, 3);
    assert_eq!(summary.replicas.ready, 2);
    assert_eq!(summary.replicas.available, 2);
    assert_eq!(summary.replicas.updated, 3);
    assert_eq!(summary.labels.get("app").map(|s| s.as_str()), Some("test-dep"));
}

#[test]
fn extract_summary_from_minimal_deployment() {
    let dep = DeploymentInfo { metadata: meta("minimal", "ns"), spec: None, status: None };
    let summary = deployment_list_summary(&dep);
    assert_eq!(summary.name, "minimal");
    assert_eq!(summary.namespace, "ns");
    assert_eq!(summary.image, "");
    assert_eq!(summary.replicas.desired, 1);
    assert_eq!(summary.replicas.ready, 0);
    assert_eq!(summary.replicas.available, 0);
    assert_eq!(summary.replicas.updated, 0);
    assert!(summary.labels.is_empty());
    assert!(summary.created_at.is_none());
}

#[test]
fn env_from_args_parses_object() {
    let args = vec![(
        "env".to_string(),
        ArgValue::Object(vec![
            ("BAZ".to_string(), Some("qux".to_string())),
            ("FOO".to_string(), Some("bar".to_string())),
        ]),
    )];
    let env = env_from_args(&args).unwrap();
    assert_eq!(env.len(), 2);
    let names: Vec<&str> = env.iter().map(|e| e.0.as_str()).collect();
    assert!(names.contains(&"FOO"));
    assert!(names.contains(&"BAZ"));
}

#[test]
fn env_from_args_returns_none_when_absent() {
    let args: Vec<(String, ArgValue)> = vec![];
    assert!(env_from_args(&args).is_none());
}

#[test]
fn env_values_that_are_not_text_become_empty() {
    let args = vec![("env".to_string(), ArgValue::Object(vec![("N".to_string(), None)]))];
    assert_eq!(env_from_args(&args).unwrap(), vec![("N".to_string(), String::new())]);
}

#[test]
fn primary_image_from_deployment() {
    assert_eq!(primary_image(&make_test_deployment()), "nginx:latest");
}

#[test]
fn primary_image_empty_when_no_spec() {
    assert_eq!(primary_image(&DeploymentInfo::default()), "");
}

#[test]
fn replica_counts_defaults() {
    let counts = replica_counts(&DeploymentInfo::default());
    assert_eq!(counts.desired, 1);
    assert_eq!(counts.ready, 0);
    assert_eq!(counts.available, 0);
    assert_eq!(counts.updated, 0);
}

// ----- dynamic resource allocation -----

#[test]
fn extract_claim_summary_from_resource_claim() {
    let claim = ResourceClaimInfo {
        metadata: meta("test-claim", "prod"),
        request_device_classes: Some(strings(&["gpu.nvidia.com"])),
        allocated: true,
    };
    let summary = extract_claim_summary(&claim);
    assert_eq!(summary.name, "test-claim");
    assert_eq!(summary.namespace, "prod");
    assert_eq!(summary.device_class_name.as_deref(), Some("gpu.nvidia.com"));
    assert!(summary.allocated);
}

#[test]
fn extract_claim_summary_no_allocation() {
    let claim = ResourceClaimInfo { metadata: meta("pending-claim", "default"), request_device_classes: None, allocated: false };
    let summary = extract_claim_summary(&claim);
    assert_eq!(summary.name, "pending-claim");
    assert!(summary.device_class_name.is_none());
    assert!(!summary.allocated);
}

#[test]
fn extract_slice_summary_from_resource_slice() {
    let slice = ResourceSliceInfo {
        metadata: named("node1-slice-0"),
        driver: "gpu.nvidia.com".to_string(),
        node_name: Some("node1".to_string()),
        pool_name: "node1-pool".to_string(),
    };
    let summary = extract_slice_summary(&slice);
    assert_eq!(summary.name, "node1-slice-0");
    assert_eq!(summary.driver_name, "gpu.nvidia.com");
    assert_eq!(summary.node_name.as_deref(), Some("node1"));
    assert_eq!(summary.pool, "node1-pool");
}

#[test]
fn extract_device_class_summary_from_device_class() {
    let summary = extract_device_class_summary(&named("gpu.nvidia.com"));
    assert_eq!(summary.name, "gpu.nvidia.com");
    assert!(summary.created_at.is_none());
}

#[test]
fn extract_claim_template_summary_from_template() {
    let summary = extract_claim_template_summary(&meta("tpl-1", "default"));
    assert_eq!(summary.name, "tpl-1");
    assert_eq!(summary.namespace, "default");
    assert!(summary.created_at.is_none());
}

#[test]
fn claim_with_empty_request_list_has_no_class() {
    let claim = ResourceClaimInfo { metadata: named("c"), request_device_classes: Some(vec![]), allocated: false };
    assert!(extract_claim_summary(&claim).device_class_name.is_none());
}

// ----- endpoints and endpoint slices -----

#[test]
fn extract_summary_from_endpoints() {
    let ep = EndpointsInfo {
        metadata: meta("test-ep", "prod"),
        subsets: Some(vec![
            EndpointSubsetInfo { addresses: Some(strings(&["10.0.0.1", "10.0.0.2"])) },
            EndpointSubsetInfo { addresses: Some(strings(&["10.0.1.1"])) },
        ]),
    };
    let summary = endpoints_summary(&ep);
    assert_eq!(summary.name, "test-ep");
    assert_eq!(summary.namespace, "prod");
    assert_eq!(summary.subsets_count, 2);
    assert_eq!(summary.total_addresses, 3);
    assert!(summary.created_at.is_none());
}

#[test]
fn extract_summary_from_empty_endpoints() {
    let ep = EndpointsInfo { metadata: meta("empty-ep", "default"), subsets: None };
    let summary = endpoints_summary(&ep);
    assert_eq!(summary.name, "empty-ep");
    assert_eq!(summary.namespace, "default");
    assert_eq!(summary.subsets_count, 0);
    assert_eq!(summary.total_addresses, 0);
    assert!(summary.created_at.is_none());
}

#[test]
fn extract_summary_from_endpoints_with_empty_subsets() {
    let ep = EndpointsInfo { metadata: meta("no-addr-ep", "default"), subsets: Some(vec![EndpointSubsetInfo { addresses: None }]) };
    let summary = endpoints_summary(&ep);
    assert_eq!(summary.subsets_count, 1);
    assert_eq!(summary.total_addresses, 0);
}

fn make_test_endpointslice() -> EndpointSliceInfo {
    let mut m = meta("my-svc-abc12", "prod");
    m.creation_timestamp = Some("2024-06-15T12:00:00Z".to_string());
    EndpointSliceInfo {
        metadata: m,
        address_type: "IPv4".to_string(),
        endpoints: vec![
            EndpointInfo {
                addresses: strings(&["10.244.0.5", "10.244.0.6"]),
                conditions: Some(EndpointConditionsInfo { ready: Some(true), serving: Some(true), terminating: Some(false) }),
                target_ref: Some(ObjectReferenceInfo {
                    kind: Some("Pod".to_string()),
                    name: Some("my-svc-pod-1".to_string()),
                    namespace: Some("prod".to_string()),
                }),
                hostname: Some("pod-1".to_string()),
                node_name: Some("node-1".to_string()),
                zone: Some("us-east-1a".to_string()),
            },
            EndpointInfo {
                addresses: strings(&["10.244.1.10"]),
                conditions: Some(EndpointConditionsInfo { ready: Some(false), serving: Some(false), terminating: Some(true) }),
                target_ref: Some(ObjectReferenceInfo {
                    kind: Some("Pod".to_string()),
                    name: Some("my-svc-pod-2".to_string()),
                    namespace: Some("prod".to_string()),
                }),
                hostname: None,
                node_name: Some("node-2".to_string()),
                zone: Some("us-east-1b".to_string()),
            },
        ],
        ports: Some(vec![
            EndpointPortInfo { name: Some("http".to_string()), protocol: Some("TCP".to_string()), port: Some(8080) },
            EndpointPortInfo { name: Some("https".to_string()), protocol: Some("TCP".to_string()), port: Some(8443) },
        ]),
    }
}

#[test]
fn extract_summary_from_endpointslice() {
    let summary = slice_summary(&make_test_endpointslice());
    assert_eq!(summary.name, "my-svc-abc12");
    assert_eq!(summary.namespace, "prod");
    assert_eq!(summary.address_type, "IPv4");
    assert_eq!(summary.endpoints_count, 2);
    assert_eq!(summary.ports.len(), 2);
    assert_eq!(summary.ports[0].name.as_deref(), Some("http"));
    assert_eq!(summary.ports[0].protocol.as_deref(), Some("TCP"));
    assert_eq!(summary.ports[0].port, Some(8080));
    assert_eq!(summary.ports[1].name.as_deref(), Some("https"));
    assert_eq!(summary.ports[1].protocol.as_deref(), Some("TCP"));
    assert_eq!(summary.ports[1].port, Some(8443));
    assert!(summary.created_at.is_some());
}

#[test]
fn extract_summary_from_minimal_endpointslice() {
    let es = EndpointSliceInfo { metadata: meta("minimal", "default"), address_type: "IPv6".to_string(), endpoints: vec![], ports: None };
    let summary = slice_summary(&es);
    assert_eq!(summary.name, "minimal");
    assert_eq!(summary.namespace, "default");
    assert_eq!(summary.address_type, "IPv6");
    assert_eq!(summary.endpoints_count, 0);
    assert!(summary.ports.is_empty());
    assert!(summary.created_at.is_none());
}

#[test]
fn extract_endpoint_detail_full() {
    let es = make_test_endpointslice();
    let detail = extract_endpoint_detail(&es.endpoints[0]);
    assert_eq!(detail.addresses, vec!["10.244.0.5", "10.244.0.6"]);
    assert_eq!(detail.hostname.as_deref(), Some("pod-1"));
    assert_eq!(detail.node_name.as_deref(), Some("node-1"));
    assert_eq!(detail.zone.as_deref(), Some("us-east-1a"));
    let cond = detail.conditions.as_ref().unwrap();
    assert_eq!(cond.ready, Some(true));
    assert_eq!(cond.serving, Some(true));
    assert_eq!(cond.terminating, Some(false));
    let tref = detail.target_ref.as_ref().unwrap();
    assert_eq!(tref.kind.as_deref(), Some("Pod"));
    assert_eq!(tref.name.as_deref(), Some("my-svc-pod-1"));
    assert_eq!(tref.namespace.as_deref(), Some("prod"));
}

#[test]
fn extract_endpoint_detail_minimal() {
    let ep = EndpointInfo { addresses: strings(&["10.0.0.1"]), ..Default::default() };
    let detail = extract_endpoint_detail(&ep);
    assert_eq!(detail.addresses, vec!["10.0.0.1"]);
    assert!(detail.conditions.is_none());
    assert!(detail.target_ref.is_none());
    assert!(detail.hostname.is_none());
    assert!(detail.node_name.is_none());
    assert!(detail.zone.is_none());
}

// ----- flow control -----

#[test]
fn extract_flowschema_summary_from_object() {
    let fs = FlowSchemaInfo {
        metadata: named("test-flow"),
        spec: Some(FlowSchemaSpecInfo { priority_level_name: "workload-low".to_string(), matching_precedence: Some(1000) }),
    };
    let summary = extract_flowschema_summary(&fs);
    assert_eq!(summary.name, "test-flow");
    assert_eq!(summary.priority_level_name, "workload-low");
    assert_eq!(summary.matching_precedence, Some(1000));
}

#[test]
fn extract_flowschema_summary_minimal() {
    let fs = FlowSchemaInfo { metadata: named("empty-flow"), spec: None };
    let summary = extract_flowschema_summary(&fs);
    assert_eq!(summary.name, "empty-flow");
    assert_eq!(summary.priority_level_name, "");
    assert_eq!(summary.matching_precedence, None);
    assert!(summary.created_at.is_none());
}

#[test]
fn extract_prioritylevel_summary_limited() {
    let plc = PriorityLevelInfo {
        metadata: named("workload-high"),
        spec: Some(PriorityLevelSpecInfo { type_: "Limited".to_string(), nominal_concurrency_shares: Some(40) }),
    };
    let summary = extract_prioritylevel_summary(&plc);
    assert_eq!(summary.name, "workload-high");
    assert_eq!(summary.type_, "Limited");
    assert_eq!(summary.assured_concurrency_shares, Some(40));
}

#[test]
fn extract_prioritylevel_summary_exempt() {
    let plc = PriorityLevelInfo {
        metadata: named("exempt"),
        spec: Some(PriorityLevelSpecInfo { type_: "Exempt".to_string(), nominal_concurrency_shares: None }),
    };
    let summary = extract_prioritylevel_summary(&plc);
    assert_eq!(summary.name, "exempt");
    assert_eq!(summary.type_, "Exempt");
    assert_eq!(summary.assured_concurrency_shares, None);
}

#[test]
fn extract_prioritylevel_summary_minimal() {
    let plc = PriorityLevelInfo { metadata: ObjectMetaInfo::default(), spec: None };
    let summary = extract_prioritylevel_summary(&plc);
    assert_eq!(summary.name, "");
    assert_eq!(summary.type_, "");
    assert_eq!(summary.assured_concurrency_shares, None);
    assert!(summary.created_at.is_none());
}

// ----- autoscalers -----

#[test]
fn extract_summary_from_hpa_object() {
    let mut m = meta("web-hpa", "production");
    m.creation_timestamp = Some("2024-06-15T12:00:00Z".to_string());
    let hpa = HpaInfo {
        metadata: m,
        spec: Some(HpaSpecInfo {
            scale_target_kind: "Deployment".to_string(),
            scale_target_name: "web-server".to_string(),
            min_replicas: Some(3),
            max_replicas: 20,
        }),
        status: Some(HpaStatusInfo { current_replicas: Some(7), desired_replicas: 10, conditions: None }),
    };
    let summary = hpa_summary(&hpa);
    assert_eq!(summary.name, "web-hpa");
    assert_eq!(summary.namespace, "production");
    assert_eq!(summary.scale_target_kind, "Deployment");
    assert_eq!(summary.scale_target_name, "web-server");
    assert_eq!(summary.min_replicas, Some(3));
    assert_eq!(summary.max_replicas, 20);
    assert_eq!(summary.current_replicas, Some(7));
    assert!(summary.created_at.is_some());
}

#[test]
fn extract_summary_from_minimal_hpa() {
    let hpa = HpaInfo { metadata: ObjectMetaInfo::default(), spec: None, status: None };
    let summary = hpa_summary(&hpa);
    assert_eq!(summary.name, "");
    assert_eq!(summary.namespace, "");
    assert_eq!(summary.scale_target_kind, "");
    assert_eq!(summary.scale_target_name, "");
    assert_eq!(summary.min_replicas, None);
    assert_eq!(summary.max_replicas, 0);
    assert_eq!(summary.current_replicas, None);
    assert_eq!(summary.created_at, None);
}

#[test]
fn hpa_detail_carries_conditions_and_desired_replicas() {
    let mut m = meta("web-hpa", "production");
    m.annotations = Some([("team".to_string(), "web".to_string())].into_iter().collect());
    let cond = ConditionInfo {
        type_: "AbleToScale".to_string(),
        status: "True".to_string(),
        reason: Some("ReadyForNewScale".to_string()),
        message: None,
        last_transition_time: Some("2024-06-15T12:05:00Z".to_string()),
    };
    let hpa = HpaInfo {
        metadata: m,
        spec: Some(HpaSpecInfo {
            scale_target_kind: "Deployment".to_string(),
            scale_target_name: "web".to_string(),
            min_replicas: None,
            max_replicas: 5,
        }),
        status: Some(HpaStatusInfo { current_replicas: Some(2), desired_replicas: 4, conditions: Some(vec![cond]) }),
    };
    let d = hpa_detail(&hpa);
    assert_eq!(d.name, "web-hpa");
    assert_eq!(d.desired_replicas, Some(4));
    assert_eq!(d.current_replicas, Some(2));
    assert_eq!(d.max_replicas, 5);
    assert_eq!(d.annotations.get("team").map(|s| s.as_str()), Some("web"));
    assert!(d.labels.is_empty());
    assert_eq!(d.conditions.len(), 1);
    assert_eq!(d.conditions[0].condition_type, "AbleToScale");
    assert_eq!(d.conditions[0].reason.as_deref(), Some("ReadyForNewScale"));
    assert_eq!(d.conditions[0].last_transition.as_deref(), Some("2024-06-15T12:05:00Z"));
    let bare = hpa_detail(&HpaInfo { metadata: ObjectMetaInfo::default(), spec: None, status: None });
    assert_eq!(bare.desired_replicas, None);
    assert!(bare.conditions.is_empty());
}

#[test]
fn extract_detail_includes_conditions_and_metrics() {
    let mut m = meta("detail-hpa", "staging");
    m.labels = Some([("app".to_string(), "test".to_string())].into_iter().collect());
    m.annotations = Some([("note".to_string(), "testing".to_string())].into_iter().collect());
    let hpa = HpaInfo {
        metadata: m,
        spec: Some(HpaSpecInfo {
            scale_target_kind: "Deployment".to_string(),
            scale_target_name: "api".to_string(),
            min_replicas: Some(1),
            max_replicas: 5,
        }),
        status: Some(HpaStatusInfo {
            current_replicas: Some(2),
            desired_replicas: 3,
            conditions: Some(vec![ConditionInfo {
                type_: "AbleToScale".to_string(),
                status: "True".to_string(),
                reason: Some("ReadyForNewScale".to_string()),
                message: Some("recommended size matches current size".to_string()),
                last_transition_time: None,
            }]),
        }),
    };
    let detail = hpa_detail(&hpa);
    assert_eq!(detail.name, "detail-hpa");
    assert_eq!(detail.namespace, "staging");
    assert_eq!(detail.labels.get("app").map(|s| s.as_str()), Some("test"));
    assert_eq!(detail.annotations.get("note").map(|s| s.as_str()), Some("testing"));
    assert_eq!(detail.conditions.len(), 1);
    assert_eq!(detail.conditions[0].condition_type, "AbleToScale");
    assert_eq!(detail.conditions[0].status, "True");
    assert_eq!(detail.desired_replicas, Some(3));
}

// ----- ingress classes -----

fn make_test_ingressclass() -> IngressClassInfo {
    let mut m = named("nginx");
    m.labels = Some(map(&[("app", "nginx")]));
    m.annotations = Some(map(&[("ingressclass.kubernetes.io/is-default-class", "true")]));
    IngressClassInfo {
        metadata: m,
        spec: Some(IngressClassSpecInfo {
            controller: Some("k8s.io/ingress-nginx".to_string()),
            parameters: Some(ParametersInfo {
                api_group: Some("example.com".to_string()),
                kind: "IngressParameters".to_string(),
                name: "nginx-params".to_string(),
                namespace: Some("ingress-nginx".to_string()),
                scope: Some("Namespace".to_string()),
            }),
        }),
    }
}

#[test]
fn extract_summary_from_ingressclass() {
    let summary = ingressclass_summary(&make_test_ingressclass());
    assert_eq!(summary.name, "nginx");
    assert_eq!(summary.controller.as_deref(), Some("k8s.io/ingress-nginx"));
    assert!(summary.is_default);
    let params = summary.parameters.unwrap();
    assert_eq!(params.api_group.as_deref(), Some("example.com"));
    assert_eq!(params.kind, "IngressParameters");
    assert_eq!(params.name, "nginx-params");
    assert_eq!(params.namespace.as_deref(), Some("ingress-nginx"));
    assert_eq!(params.scope.as_deref(), Some("Namespace"));
}

#[test]
fn extract_summary_from_minimal_ingressclass() {
    let ic = IngressClassInfo { metadata: named("alb"), spec: None };
    let summary = ingressclass_summary(&ic);
    assert_eq!(summary.name, "alb");
    assert!(summary.controller.is_none());
    assert!(!summary.is_default);
    assert!(summary.parameters.is_none());
    assert!(summary.created_at.is_none());
}

#[test]
fn extract_summary_non_default_class() {
    let mut m = named("traefik");
    m.annotations = Some(map(&[("ingressclass.kubernetes.io/is-default-class", "false")]));
    let ic = IngressClassInfo {
        metadata: m,
        spec: Some(IngressClassSpecInfo { controller: Some("traefik.io/ingress-controller".to_string()), parameters: None }),
    };
    let summary = ingressclass_summary(&ic);
    assert_eq!(summary.name, "traefik");
    assert_eq!(summary.controller.as_deref(), Some("traefik.io/ingress-controller"));
    assert!(!summary.is_default);
    assert!(summary.parameters.is_none());
}

// ----- IP addresses and service CIDRs -----

#[test]
fn extract_ipaddress_summary_with_spec() {
    let ip = IPAddressInfo {
        metadata: named("10.96.0.10"),
        parent_ref: Some(ParentRefInfo {
            group: Some(String::new()),
            resource: "services".to_string(),
            name: "my-svc".to_string(),
            namespace: Some("kube-system".to_string()),
        }),
    };
    let summary = extract_ipaddress_summary(&ip);
    assert_eq!(summary.name, "10.96.0.10");
    let pr = summary.parent_ref.unwrap();
    assert_eq!(pr.group.as_deref(), Some(""));
    assert_eq!(pr.resource, "services");
    assert_eq!(pr.name, "my-svc");
    assert_eq!(pr.namespace.as_deref(), Some("kube-system"));
}

#[test]
fn extract_ipaddress_summary_without_spec() {
    let summary = extract_ipaddress_summary(&IPAddressInfo { metadata: named("10.96.0.11"), parent_ref: None });
    assert_eq!(summary.name, "10.96.0.11");
    assert!(summary.parent_ref.is_none());
    assert!(summary.created_at.is_none());
}

#[test]
fn extract_servicecidr_summary_with_spec() {
    let sc = ServiceCIDRInfo { metadata: named("kubernetes"), cidrs: Some(strings(&["10.96.0.0/12", "fd00::/108"])) };
    let summary = extract_servicecidr_summary(&sc);
    assert_eq!(summary.name, "kubernetes");
    assert_eq!(summary.cidrs.len(), 2);
    assert_eq!(summary.cidrs[0], "10.96.0.0/12");
    assert_eq!(summary.cidrs[1], "fd00::/108");
}

#[test]
fn extract_servicecidr_summary_without_spec() {
    let summary = extract_servicecidr_summary(&ServiceCIDRInfo { metadata: named("empty"), cidrs: None });
    assert_eq!(summary.name, "empty");
    assert!(summary.cidrs.is_empty());
    assert!(summary.created_at.is_none());
}

#[test]
fn extract_servicecidr_summary_with_status() {
    let sc = ServiceCIDRInfo { metadata: named("kubernetes"), cidrs: Some(strings(&["10.96.0.0/12"])) };
    let summary = extract_servicecidr_summary(&sc);
    assert_eq!(summary.name, "kubernetes");
    assert_eq!(summary.cidrs.len(), 1);
}

// ----- leases, limit ranges, namespaces -----

#[test]
fn extract_summary_from_lease() {
    let mut m = meta("kube-controller-manager", "kube-system");
    m.creation_timestamp = Some("2024-01-01T00:00:00Z".to_string());
    let lease = LeaseInfo {
        metadata: m,
        spec: Some(LeaseSpecInfo {
            holder_identity: Some("master-1".to_string()),
            lease_duration_seconds: Some(15),
            acquire_time: Some("2024-01-01T00:00:00.000000Z".to_string()),
            renew_time: Some("2024-01-01T01:00:00.000000Z".to_string()),
        }),
    };
    let summary = lease_summary(&lease);
    assert_eq!(summary.name, "kube-controller-manager");
    assert_eq!(summary.namespace, "kube-system");
    assert_eq!(summary.holder_identity.as_deref(), Some("master-1"));
    assert_eq!(summary.lease_duration_seconds, Some(15));
    assert!(summary.acquire_time.is_some());
    assert!(summary.renew_time.is_some());
    assert!(summary.created_at.is_some());
}

#[test]
fn extract_summary_from_empty_lease() {
    let summary = lease_summary(&LeaseInfo { metadata: meta("empty-lease", "default"), spec: None });
    assert_eq!(summary.name, "empty-lease");
    assert_eq!(summary.namespace, "default");
    assert!(summary.holder_identity.is_none());
    assert!(summary.lease_duration_seconds.is_none());
    assert!(summary.acquire_time.is_none());
    assert!(summary.renew_time.is_none());
    assert!(summary.created_at.is_none());
}

#[test]
fn extract_summary_from_limitrange() {
    let mut m = meta("test-lr", "prod");
    m.labels = Some(map(&[("env", "production")]));
    let lr = LimitRangeInfo {
        metadata: m,
        limits: Some(vec![
            LimitItemInfo {
                type_: "Container".to_string(),
                max: Some(map(&[("cpu", "2")])),
                min: Some(map(&[("cpu", "100m")])),
                default: Some(map(&[("cpu", "500m")])),
                default_request: Some(map(&[("cpu", "200m")])),
            },
            LimitItemInfo { type_: "Pod".to_string(), max: Some(map(&[("memory", "4Gi")])), ..Default::default() },
        ]),
    };
    let summary = limitrange_summary(&lr);
    assert_eq!(summary.name, "test-lr");
    assert_eq!(summary.namespace, "prod");
    assert_eq!(summary.limits_count, 2);
    assert!(summary.created_at.is_none());
}

#[test]
fn extract_summary_from_empty_limitrange() {
    let summary = limitrange_summary(&LimitRangeInfo { metadata: meta("empty-lr", "default"), limits: None });
    assert_eq!(summary.name, "empty-lr");
    assert_eq!(summary.namespace, "default");
    assert_eq!(summary.limits_count, 0);
    assert!(summary.created_at.is_none());
}

#[test]
fn extract_limit_item_full() {
    let item = LimitItemInfo {
        type_: "Container".to_string(),
        max: Some(map(&[("cpu", "4"), ("memory", "2Gi")])),
        min: Some(map(&[("cpu", "50m")])),
        default: Some(map(&[("cpu", "1")])),
        default_request: Some(map(&[("memory", "256Mi")])),
    };
    let summary = extract_limit_item(&item);
    assert_eq!(summary.type_, "Container");
    assert_eq!(summary.max.get("cpu").unwrap(), "4");
    assert_eq!(summary.max.get("memory").unwrap(), "2Gi");
    assert_eq!(summary.min.get("cpu").unwrap(), "50m");
    assert_eq!(summary.default.get("cpu").unwrap(), "1");
    assert_eq!(summary.default_request.get("memory").unwrap(), "256Mi");
}

#[test]
fn extract_limit_item_empty() {
    let item = LimitItemInfo { type_: "PersistentVolumeClaim".to_string(), ..Default::default() };
    let summary = extract_limit_item(&item);
    assert_eq!(summary.type_, "PersistentVolumeClaim");
    assert!(summary.max.is_empty());
    assert!(summary.min.is_empty());
    assert!(summary.default.is_empty());
    assert!(summary.default_request.is_empty());
}

#[test]
fn extract_detail_from_namespace() {
    let mut m = named("test-ns");
    m.labels = Some(map(&[("env", "staging")]));
    m.annotations = Some(map(&[("description", "test namespace")]));
    m.finalizers = Some(strings(&["kubernetes"]));
    let detail = namespace_detail(&NamespaceInfo { metadata: m, phase: Some("Active".to_string()) });
    assert_eq!(detail.name, "test-ns");
    assert_eq!(detail.status, "Active");
    assert_eq!(detail.labels.get("env").unwrap(), "staging");
    assert_eq!(detail.annotations.get("description").unwrap(), "test namespace");
    assert!(detail.created_at.is_none());
    assert_eq!(detail.finalizers, vec!["kubernetes".to_string()]);
}

#[test]
fn extract_detail_from_empty_namespace() {
    let detail = namespace_detail(&NamespaceInfo { metadata: named("minimal-ns"), phase: None });
    assert_eq!(detail.name, "minimal-ns");
    assert_eq!(detail.status, "Unknown");
    assert!(detail.labels.is_empty());
    assert!(detail.annotations.is_empty());
    assert!(detail.created_at.is_none());
    assert!(detail.finalizers.is_empty());
}

#[test]
fn extract_detail_terminating_namespace() {
    let mut m = named("dying-ns");
    m.finalizers = Some(strings(&["kubernetes", "custom-finalizer"]));
    let detail = namespace_detail(&NamespaceInfo { metadata: m, phase: Some("Terminating".to_string()) });
    assert_eq!(detail.name, "dying-ns");
    assert_eq!(detail.status, "Terminating");
    assert_eq!(detail.finalizers.len(), 2);
    assert!(detail.finalizers.contains(&"kubernetes".to_string()));
    assert!(detail.finalizers.contains(&"custom-finalizer".to_string()));
}

// ----- admission, trust bundles, CRDs -----

#[test]
fn webhook_config_counts_webhooks() {
    let cfg = WebhookConfigInfo { metadata: named("hooks"), webhooks: Some(strings(&["a.example.com", "b.example.com"])) };
    let summary = webhook_config_summary(&cfg);
    assert_eq!(summary.name, "hooks");
    assert_eq!(summary.webhooks_count, 2);
    let none = webhook_config_summary(&WebhookConfigInfo { metadata: named("empty"), webhooks: None });
    assert_eq!(none.webhooks_count, 0);
}

#[test]
fn policy_actions_are_its_failure_policy() {
    let p = policy_summary(&PolicyInfo { metadata: named("deny-privileged"), failure_policy: Some("Fail".to_string()) });
    assert_eq!(p.name, "deny-privileged");
    assert_eq!(p.validation_actions, vec!["Fail"]);
    let q = policy_summary(&PolicyInfo { metadata: named("empty-policy"), failure_policy: None });
    assert!(q.validation_actions.is_empty());
}

#[test]
fn trust_bundle_summary_copies_signer() {
    let s = bundle_summary(&ClusterTrustBundleInfo { metadata: named("bundle"), signer_name: Some("example.com/signer".to_string()) });
    assert_eq!(s.name, "bundle");
    assert_eq!(s.signer_name.as_deref(), Some("example.com/signer"));
    let t = bundle_summary(&ClusterTrustBundleInfo { metadata: named("plain"), signer_name: None });
    assert!(t.signer_name.is_none());
}

#[test]
fn crd_summary_lists_versions() {
    let crd = CrdInfo {
        metadata: named("widgets.example.com"),
        group: "example.com".to_string(),
        kind: "Widget".to_string(),
        scope: "Namespaced".to_string(),
        versions: strings(&["v1alpha1", "v1"]),
    };
    let s = crd_summary(&crd);
    assert_eq!(s.name, "widgets.example.com");
    assert_eq!(s.group, "example.com");
    assert_eq!(s.kind, "Widget");
    assert_eq!(s.scope, "Namespaced");
    assert_eq!(s.versions, vec!["v1alpha1", "v1"]);
}
