use std::collections::BTreeMap;

use mcp_k8s::extract::{cronjob_detail, cronjob_summary, event_summary};
use mcp_k8s::ingress::{ingress_detail, ingress_summary, routes_to_service};
use mcp_k8s::model::{
    ConditionInfo, ContainerInfo, CronJobInfo, CronJobSpecInfo, CronJobStatusInfo, EventInfo, EventSourceInfo,
    IngressBackendInfo, IngressInfo, IngressPathInfo, IngressRuleInfo, IngressSpecInfo,
    IngressTlsInfo, LoadBalancerIngressInfo, NodeInfo, NodeStatusInfo, NodeSystemInfo,
    ObjectMetaInfo, ObjectReferenceInfo,
};
use mcp_k8s::node::{node_ready_status, node_roles, node_summary};

fn meta(name: &str, namespace: &str) -> ObjectMetaInfo {
    ObjectMetaInfo {
        name: Some(name.to_string()),
        namespace: Some(namespace.to_string()),
        ..Default::default()
    }
}

fn map(pairs: &[(&str, &str)]) -> BTreeMap<String, String> {
    pairs.iter().map(|(k, v)| (k.to_string(), v.to_string())).collect()
}

fn rule(host: Option<&str>, paths: Vec<IngressPathInfo>) -> IngressRuleInfo {
    IngressRuleInfo { host: host.map(|h| h.to_string()), http: Some(paths) }
}

fn path(p: Option<&str>, service: Option<(&str, Option<i32>)>) -> IngressPathInfo {
    IngressPathInfo {
        path: p.map(|s| s.to_string()),
        path_type: "Prefix".to_string(),
        service: service.map(|(n, port)| IngressBackendInfo { name: n.to_string(), port_number: port }),
    }
}

#[test]
fn ingress_detail_extraction_from_constructed_ingress() {
    let mut m = meta("test-ingress", "prod");
    m.labels = Some(map(&[("app", "web")]));
    m.annotations = Some(map(&[("nginx.ingress.kubernetes.io/rewrite-target", "/")]));
    let ing = IngressInfo {
        metadata: m,
        spec: Some(IngressSpecInfo {
            ingress_class_name: Some("nginx".to_string()),
            tls: Some(vec![IngressTlsInfo {
                hosts: Some(vec!["example.com".to_string()]),
                secret_name: Some("tls-secret".to_string()),
            }]),
            rules: Some(vec![rule(Some("example.com"), vec![path(Some("/api"), Some(("api-svc", Some(8080))))])]),
        }),
        load_balancer: None,
    };
    let detail = ingress_detail(&ing);
    assert_eq!(detail.name, "test-ingress");
    assert_eq!(detail.namespace, "prod");
    assert_eq!(detail.ingress_class.as_deref(), Some("nginx"));
    assert_eq!(detail.hosts, vec!["example.com".to_string()]);
    assert_eq!(detail.labels.get("app").unwrap(), "web");
    assert_eq!(detail.annotations.get("nginx.ingress.kubernetes.io/rewrite-target").unwrap(), "/");
    assert_eq!(detail.rules.len(), 1);
    assert_eq!(detail.rules[0].host.as_deref(), Some("example.com"));
    assert_eq!(detail.rules[0].paths.len(), 1);
    assert_eq!(detail.rules[0].paths[0].path, "/api");
    assert_eq!(detail.rules[0].paths[0].path_type, "Prefix");
    assert_eq!(detail.rules[0].paths[0].service_name, "api-svc");
    assert_eq!(detail.rules[0].paths[0].service_port, 8080);
    assert_eq!(detail.tls.len(), 1);
    assert_eq!(detail.tls[0].hosts, vec!["example.com".to_string()]);
    assert_eq!(detail.tls[0].secret_name.as_deref(), Some("tls-secret"));
    assert!(detail.addresses.is_empty());
    assert!(detail.created_at.is_none());
}

#[test]
fn ingress_detail_extraction_from_minimal_ingress() {
    let ing = IngressInfo { metadata: meta("minimal", "default"), spec: None, load_balancer: None };
    let detail = ingress_detail(&ing);
    assert_eq!(detail.name, "minimal");
    assert_eq!(detail.namespace, "default");
    assert!(detail.ingress_class.is_none());
    assert!(detail.hosts.is_empty());
    assert!(detail.rules.is_empty());
    assert!(detail.tls.is_empty());
    assert!(detail.annotations.is_empty());
    assert!(detail.labels.is_empty());
    assert!(detail.addresses.is_empty());
    assert!(detail.created_at.is_none());
}

#[test]
fn ingress_path_defaults() {
    let ing = IngressInfo {
        metadata: meta("d", "ns"),
        spec: Some(IngressSpecInfo {
            rules: Some(vec![rule(None, vec![path(None, Some(("svc", None))), path(Some("/x"), None)])]),
            ..Default::default()
        }),
        load_balancer: None,
    };
    let detail = ingress_detail(&ing);
    let paths = &detail.rules[0].paths;
    assert_eq!(paths[0].path, "/");
    assert_eq!(paths[0].service_name, "svc");
    assert_eq!(paths[0].service_port, 80);
    assert_eq!(paths[1].service_name, "");
    assert_eq!(paths[1].service_port, 0);
    assert!(detail.hosts.is_empty());
}

#[test]
fn ingress_summary_hosts_and_addresses() {
    let ing = IngressInfo {
        metadata: meta("web", "prod"),
        spec: Some(IngressSpecInfo {
            rules: Some(vec![rule(Some("a.example.com"), vec![]), rule(None, vec![]), rule(Some("b.example.com"), vec![])]),
            ..Default::default()
        }),
        load_balancer: Some(vec![
            LoadBalancerIngressInfo { hostname: Some("lb.example.com".to_string()), ip: Some("1.2.3.4".to_string()) },
            LoadBalancerIngressInfo { hostname: None, ip: Some("5.6.7.8".to_string()) },
            LoadBalancerIngressInfo { hostname: None, ip: None },
        ]),
    };
    let s = ingress_summary(&ing);
    assert_eq!(s.hosts, vec!["a.example.com", "b.example.com"]);
    assert_eq!(s.addresses, vec!["lb.example.com", "5.6.7.8"]);
}

#[test]
fn ingress_routes_to_service_by_name() {
    let ing = IngressInfo {
        metadata: meta("web", "prod"),
        spec: Some(IngressSpecInfo {
            rules: Some(vec![rule(None, vec![path(Some("/"), Some(("frontend", Some(80))))]), rule(None, vec![path(Some("/api"), Some(("api", None)))])]),
            ..Default::default()
        }),
        load_balancer: None,
    };
    assert!(routes_to_service(&ing, "api"));
    assert!(routes_to_service(&ing, "frontend"));
    assert!(!routes_to_service(&ing, "backend"));
    let empty = IngressInfo { metadata: meta("e", "prod"), spec: None, load_balancer: None };
    assert!(!routes_to_service(&empty, "api"));
}

#[test]
fn extraction_from_cronjob_object() {
    let mut m = meta("my-job", "default");
    m.labels = Some(map(&[("app", "my-job")]));
    let cj = CronJobInfo {
        metadata: m,
        spec: Some(CronJobSpecInfo { schedule: "*/5 * * * *".to_string(), suspend: Some(false), ..Default::default() }),
        status: Some(CronJobStatusInfo { active: Some(vec![]), last_schedule_time: None }),
    };
    let summary = cronjob_summary(&cj);
    assert_eq!(summary.name, "my-job");
    assert_eq!(summary.namespace, "default");
    assert_eq!(summary.schedule, "*/5 * * * *");
    assert!(!summary.suspend);
    assert_eq!(summary.active_count, 0);
    assert!(summary.last_schedule_time.is_none());
}

#[test]
fn cronjob_counts_active_jobs_and_suspension() {
    let r = ObjectReferenceInfo::default();
    let cj = CronJobInfo {
        metadata: meta("c", "ns"),
        spec: Some(CronJobSpecInfo { schedule: "0 * * * *".to_string(), suspend: Some(true), ..Default::default() }),
        status: Some(CronJobStatusInfo { active: Some(vec![r.clone(), r]), last_schedule_time: Some("2024-01-01T00:00:00Z".to_string()) }),
    };
    let s = cronjob_summary(&cj);
    assert!(s.suspend);
    assert_eq!(s.active_count, 2);
    assert_eq!(s.last_schedule_time.as_deref(), Some("2024-01-01T00:00:00Z"));
    let bare = cronjob_summary(&CronJobInfo { metadata: meta("b", "ns"), spec: None, status: None });
    assert_eq!(bare.schedule, "");
    assert!(!bare.suspend);
}

#[test]
fn event_without_type_is_normal() {
    let ev = EventInfo {
        metadata: meta("ev1", "default"),
        type_: None,
        reason: Some("Pulled".to_string()),
        message: Some("pulled image".to_string()),
        involved_object: ObjectReferenceInfo { kind: Some("Pod".to_string()), name: Some("web-1".to_string()), namespace: None },
        count: Some(3),
        first_timestamp: None,
        last_timestamp: Some("2024-01-01T00:00:00Z".to_string()),
        source: Some(EventSourceInfo { component: Some("kubelet".to_string()), host: Some("node-1".to_string()) }),
    };
    let s = event_summary(&ev);
    assert_eq!(s.event_type, "Normal");
    assert_eq!(s.involved_object_kind, "Pod");
    assert_eq!(s.involved_object_name, "web-1");
    assert_eq!(s.count, Some(3));
    assert_eq!(s.source_component.as_deref(), Some("kubelet"));
    assert_eq!(s.source_host.as_deref(), Some("node-1"));
    let warn = event_summary(&EventInfo { type_: Some("Warning".to_string()), ..Default::default() });
    assert_eq!(warn.event_type, "Warning");
    assert_eq!(warn.involved_object_kind, "");
}

fn cond(t: &str, s: &str) -> ConditionInfo {
    ConditionInfo { type_: t.to_string(), status: s.to_string(), ..Default::default() }
}

fn node(labels: Option<BTreeMap<String, String>>, conditions: Option<Vec<ConditionInfo>>) -> NodeInfo {
    let mut m = meta("node-1", "");
    m.namespace = None;
    m.labels = labels;
    NodeInfo {
        metadata: m,
        status: Some(NodeStatusInfo {
            capacity: Some(vec![("cpu".to_string(), "4".to_string()), ("memory".to_string(), "16Gi".to_string())]),
            allocatable: Some(vec![("cpu".to_string(), "3800m".to_string())]),
            node_info: Some(NodeSystemInfo {
                os_image: "Ubuntu 22.04".to_string(),
                kernel_version: "6.1".to_string(),
                kubelet_version: "v1.32.0".to_string(),
            }),
            conditions,
        }),
    }
}

#[test]
fn node_readiness_from_ready_condition() {
    assert_eq!(node_ready_status(&node(None, Some(vec![cond("MemoryPressure", "False"), cond("Ready", "True")]))), "Ready");
    assert_eq!(node_ready_status(&node(None, Some(vec![cond("Ready", "False")]))), "NotReady");
    assert_eq!(node_ready_status(&node(None, Some(vec![cond("Ready", "Unknown")]))), "Unknown");
    assert_eq!(node_ready_status(&node(None, Some(vec![]))), "Unknown");
    assert_eq!(node_ready_status(&node(None, None)), "Unknown");
}

#[test]
fn node_roles_from_role_labels_sorted() {
    let labels = map(&[
        ("node-role.kubernetes.io/worker", ""),
        ("node-role.kubernetes.io/control-plane", ""),
        ("node-role.kubernetes.io/", ""),
        ("kubernetes.io/role", "legacy"),
        ("zone", "a"),
    ]);
    assert_eq!(node_roles(&Some(labels)), vec!["control-plane", "worker"]);
}

#[test]
fn node_roles_fall_back_to_legacy_label_then_none() {
    assert_eq!(node_roles(&Some(map(&[("kubernetes.io/role", "master")]))), vec!["master"]);
    assert_eq!(node_roles(&Some(map(&[("zone", "a")]))), vec!["<none>"]);
    assert_eq!(node_roles(&None), vec!["<none>"]);
}

#[test]
fn node_summary_reads_capacity_and_versions() {
    let s = node_summary(&node(Some(map(&[("node-role.kubernetes.io/worker", "")])), Some(vec![cond("Ready", "True")])));
    assert_eq!(s.name, "node-1");
    assert_eq!(s.status, "Ready");
    assert_eq!(s.roles, vec!["worker"]);
    assert_eq!(s.cpu_capacity.as_deref(), Some("4"));
    assert_eq!(s.memory_capacity.as_deref(), Some("16Gi"));
    assert_eq!(s.cpu_allocatable.as_deref(), Some("3800m"));
    assert_eq!(s.memory_allocatable, None);
    assert_eq!(s.os_image.as_deref(), Some("Ubuntu 22.04"));
    assert_eq!(s.kubelet_version.as_deref(), Some("v1.32.0"));
    assert_eq!(s.conditions.len(), 1);
    let bare = node_summary(&NodeInfo { metadata: ObjectMetaInfo::default(), status: None });
    assert_eq!(bare.status, "Unknown");
    assert!(bare.cpu_capacity.is_none() && bare.os_image.is_none());
}

#[test]
fn cronjob_detail_defaults_policy_and_reads_image() {
    let mut m = meta("nightly", "ops");
    m.annotations = Some(map(&[("owner", "ops")]));
    let cj = CronJobInfo {
        metadata: m,
        spec: Some(CronJobSpecInfo {
            schedule: "0 2 * * *".to_string(),
            suspend: None,
            concurrency_policy: None,
            successful_jobs_history_limit: Some(3),
            failed_jobs_history_limit: Some(1),
            containers: Some(vec![ContainerInfo { name: "c".to_string(), image: Some("busybox".to_string()), ..Default::default() }]),
        }),
        status: None,
    };
    let d = cronjob_detail(&cj);
    assert_eq!(d.schedule, "0 2 * * *");
    assert_eq!(d.concurrency_policy, "Allow");
    assert_eq!(d.successful_jobs_history_limit, Some(3));
    assert_eq!(d.failed_jobs_history_limit, Some(1));
    assert_eq!(d.image, "busybox");
    assert_eq!(d.annotations.get("owner").map(|s| s.as_str()), Some("ops"));
    let mut forbid = cj.clone();
    forbid.spec.as_mut().unwrap().concurrency_policy = Some("Forbid".to_string());
    assert_eq!(cronjob_detail(&forbid).concurrency_policy, "Forbid");
}
