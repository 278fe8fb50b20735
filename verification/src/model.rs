//! The parts of Kubernetes objects that the tools read, as plain values.
//!
//! Timestamps are held as the text the API server's time type renders;
//! quantity maps (`cpu`, `memory`, ...) as `(name, quantity)` pairs in key order.
use std::collections::BTreeMap;

use vstd::prelude::*;

use crate::text::str_eq;

verus! {

/// Object metadata that the tools read.
#[derive(Clone, Debug, Default)]
pub struct ObjectMetaInfo {
    pub name: Option<String>,
    pub namespace: Option<String>,
    pub creation_timestamp: Option<String>,
    pub labels: Option<BTreeMap<String, String>>,
    pub annotations: Option<BTreeMap<String, String>>,
    pub finalizers: Option<Vec<String>>,
}

/// A status condition (deployment, node, pod, job, ...).
#[derive(Clone, Debug, Default)]
pub struct ConditionInfo {
    pub type_: String,
    pub status: String,
    pub reason: Option<String>,
    pub message: Option<String>,
    pub last_transition_time: Option<String>,
}

/// A port given either as a number or as a name.
#[derive(Clone, Debug)]
pub enum PortValue {
    Int(i32),
    Name(String),
}

/// An HTTP GET probe action.
#[derive(Clone, Debug)]
pub struct HttpGetInfo {
    pub path: Option<String>,
    pub port: PortValue,
}

/// A health probe of a container.
#[derive(Clone, Debug, Default)]
pub struct ProbeInfo {
    pub http_get: Option<HttpGetInfo>,
    pub tcp_socket_port: Option<PortValue>,
    /// `Some` when the probe runs a command; the command itself may be absent.
    pub exec_command: Option<Option<Vec<String>>>,
    pub initial_delay_seconds: Option<i32>,
    pub period_seconds: Option<i32>,
    pub timeout_seconds: Option<i32>,
    pub failure_threshold: Option<i32>,
    pub success_threshold: Option<i32>,
}

/// An environment variable of a container.
#[derive(Clone, Debug)]
pub struct EnvVarInfo {
    pub name: String,
    pub value: Option<String>,
}

/// Resource limits and requests of a container, as `(resource, quantity)` pairs.
#[derive(Clone, Debug, Default)]
pub struct ResourcesInfo {
    pub limits: Option<Vec<(String, String)>>,
    pub requests: Option<Vec<(String, String)>>,
}

/// A container of a pod template or a pod.
#[derive(Clone, Debug, Default)]
pub struct ContainerInfo {
    pub name: String,
    pub image: Option<String>,
    pub env: Option<Vec<EnvVarInfo>>,
    pub command: Option<Vec<String>>,
    pub args: Option<Vec<String>>,
    pub resources: Option<ResourcesInfo>,
    pub liveness_probe: Option<ProbeInfo>,
    pub readiness_probe: Option<ProbeInfo>,
    pub startup_probe: Option<ProbeInfo>,
}

/// The spec of a deployment: replicas and its pod template's containers
/// (`None` when the template has no pod spec).
#[derive(Clone, Debug, Default)]
pub struct DeploymentSpecInfo {
    pub replicas: Option<i32>,
    pub containers: Option<Vec<ContainerInfo>>,
    pub match_labels: Option<BTreeMap<String, String>>,
}

/// The status of a deployment.
#[derive(Clone, Debug, Default)]
pub struct DeploymentStatusInfo {
    pub ready_replicas: Option<i32>,
    pub available_replicas: Option<i32>,
    pub updated_replicas: Option<i32>,
    pub conditions: Option<Vec<ConditionInfo>>,
}

/// A deployment.
#[derive(Clone, Debug, Default)]
pub struct DeploymentInfo {
    pub metadata: ObjectMetaInfo,
    pub spec: Option<DeploymentSpecInfo>,
    pub status: Option<DeploymentStatusInfo>,
}

/// A running container's state: when it started.
#[derive(Clone, Debug, Default)]
pub struct ContainerRunningInfo {
    pub started_at: Option<String>,
}

/// A waiting or terminated container's state: why.
#[derive(Clone, Debug, Default)]
pub struct ContainerReasonInfo {
    pub reason: Option<String>,
}

/// The state of a container; at most one part is normally set.
#[derive(Clone, Debug, Default)]
pub struct ContainerStateInfo {
    pub running: Option<ContainerRunningInfo>,
    pub waiting: Option<ContainerReasonInfo>,
    pub terminated: Option<ContainerReasonInfo>,
}

/// The runtime status of one container of a pod.
#[derive(Clone, Debug, Default)]
pub struct ContainerStatusInfo {
    pub name: String,
    pub ready: bool,
    pub restart_count: i32,
    pub image: String,
    pub state: Option<ContainerStateInfo>,
    pub last_state: Option<ContainerStateInfo>,
}

/// The spec of a pod: its containers and the node it runs on.
#[derive(Clone, Debug, Default)]
pub struct PodSpecInfo {
    pub containers: Vec<ContainerInfo>,
    pub node_name: Option<String>,
}

/// The status of a pod.
#[derive(Clone, Debug, Default)]
pub struct PodStatusInfo {
    pub phase: Option<String>,
    pub container_statuses: Option<Vec<ContainerStatusInfo>>,
    pub start_time: Option<String>,
    pub conditions: Option<Vec<ConditionInfo>>,
}

/// A pod.
#[derive(Clone, Debug, Default)]
pub struct PodInfo {
    pub metadata: ObjectMetaInfo,
    pub spec: Option<PodSpecInfo>,
    pub status: Option<PodStatusInfo>,
}

/// The service backend of an ingress path: service name and port number.
#[derive(Clone, Debug, Default)]
pub struct IngressBackendInfo {
    pub name: String,
    pub port_number: Option<i32>,
}

/// One path of an ingress rule.
#[derive(Clone, Debug, Default)]
pub struct IngressPathInfo {
    pub path: Option<String>,
    pub path_type: String,
    pub service: Option<IngressBackendInfo>,
}

/// One rule of an ingress; `http` holds its paths.
#[derive(Clone, Debug, Default)]
pub struct IngressRuleInfo {
    pub host: Option<String>,
    pub http: Option<Vec<IngressPathInfo>>,
}

/// One TLS entry of an ingress.
#[derive(Clone, Debug, Default)]
pub struct IngressTlsInfo {
    pub hosts: Option<Vec<String>>,
    pub secret_name: Option<String>,
}

/// The spec of an ingress.
#[derive(Clone, Debug, Default)]
pub struct IngressSpecInfo {
    pub ingress_class_name: Option<String>,
    pub rules: Option<Vec<IngressRuleInfo>>,
    pub tls: Option<Vec<IngressTlsInfo>>,
}

/// An address of a load balancer.
#[derive(Clone, Debug, Default)]
pub struct LoadBalancerIngressInfo {
    pub hostname: Option<String>,
    pub ip: Option<String>,
}

/// An ingress; `load_balancer` holds the addresses its status reports.
#[derive(Clone, Debug, Default)]
pub struct IngressInfo {
    pub metadata: ObjectMetaInfo,
    pub spec: Option<IngressSpecInfo>,
    pub load_balancer: Option<Vec<LoadBalancerIngressInfo>>,
}

/// A cron job: spec (schedule, suspend) and status.
#[derive(Clone, Debug, Default)]
pub struct CronJobInfo {
    pub metadata: ObjectMetaInfo,
    pub spec: Option<CronJobSpecInfo>,
    pub status: Option<CronJobStatusInfo>,
}

/// The spec of a cron job.
#[derive(Clone, Debug, Default)]
pub struct CronJobSpecInfo {
    pub schedule: String,
    pub suspend: Option<bool>,
    pub concurrency_policy: Option<String>,
    pub successful_jobs_history_limit: Option<i32>,
    pub failed_jobs_history_limit: Option<i32>,
    /// The containers of the job template's pod spec; `None` when the
    /// template has no job spec or no pod spec.
    pub containers: Option<Vec<ContainerInfo>>,
}

/// The status of a cron job: its active jobs and when it last ran.
#[derive(Clone, Debug, Default)]
pub struct CronJobStatusInfo {
    pub active: Option<Vec<ObjectReferenceInfo>>,
    pub last_schedule_time: Option<String>,
}

/// Version facts of a node.
#[derive(Clone, Debug, Default)]
pub struct NodeSystemInfo {
    pub os_image: String,
    pub kernel_version: String,
    pub kubelet_version: String,
}

/// The status of a node.
#[derive(Clone, Debug, Default)]
pub struct NodeStatusInfo {
    pub capacity: Option<Vec<(String, String)>>,
    pub allocatable: Option<Vec<(String, String)>>,
    pub node_info: Option<NodeSystemInfo>,
    pub conditions: Option<Vec<ConditionInfo>>,
}

/// A node.
#[derive(Clone, Debug, Default)]
pub struct NodeInfo {
    pub metadata: ObjectMetaInfo,
    pub status: Option<NodeStatusInfo>,
}

/// The object an event is about.
#[derive(Clone, Debug, Default)]
pub struct ObjectReferenceInfo {
    pub kind: Option<String>,
    pub name: Option<String>,
    pub namespace: Option<String>,
}

/// The component that reported an event.
#[derive(Clone, Debug, Default)]
pub struct EventSourceInfo {
    pub component: Option<String>,
    pub host: Option<String>,
}

/// An event.
#[derive(Clone, Debug, Default)]
pub struct EventInfo {
    pub metadata: ObjectMetaInfo,
    pub type_: Option<String>,
    pub reason: Option<String>,
    pub message: Option<String>,
    pub involved_object: ObjectReferenceInfo,
    pub count: Option<i32>,
    pub first_timestamp: Option<String>,
    pub last_timestamp: Option<String>,
    pub source: Option<EventSourceInfo>,
}

/// A point in time: the text the API renders and whole seconds since the Unix epoch.
#[derive(Clone, Debug, Default)]
pub struct TimeInfo {
    pub text: String,
    pub seconds: i64,
}

/// The text of an optional time.
pub open spec fn time_text(t: Option<TimeInfo>) -> Option<Seq<char>> {
    match t {
        Some(x) => Some(x.text@),
        None => None,
    }
}

/// A copy of the text of an optional time.
pub fn clone_time_text(t: &Option<TimeInfo>) -> (r: Option<String>)
    ensures
        opt_view(r) == time_text(*t),
{
    match t {
        Some(x) => Some(x.text.clone()),
        None => None,
    }
}

/// The text of an optional string, empty when absent.
pub open spec fn opt_text(s: Option<String>) -> Seq<char> {
    match s {
        Some(t) => t@,
        None => Seq::empty(),
    }
}

/// The views of optional strings.
pub open spec fn opt_view(s: Option<String>) -> Option<Seq<char>> {
    match s {
        Some(t) => Some(t@),
        None => None,
    }
}

/// A copy of an optional string, or the empty string.
pub fn text_or_empty(s: &Option<String>) -> (r: String)
    ensures
        r@ == opt_text(*s),
{
    match s {
        Some(t) => t.clone(),
        None => String::new(),
    }
}

/// A copy of an optional string.
pub fn clone_opt(s: &Option<String>) -> (r: Option<String>)
    ensures
        opt_view(r) == opt_view(*s),
{
    match s {
        Some(t) => Some(t.clone()),
        None => None,
    }
}

/// The entries of an optional map, or no entries.
pub open spec fn opt_map(m: Option<BTreeMap<String, String>>) -> Map<String, String> {
    match m {
        Some(l) => l@,
        None => Map::empty(),
    }
}

/// A copy of an optional map, or the empty map.
pub fn map_or_empty(m: &Option<BTreeMap<String, String>>) -> (r: BTreeMap<String, String>)
    ensures
        r@ == opt_map(*m),
{
    match m {
        Some(l) => l.clone(),
        None => BTreeMap::new(),
    }
}

/// The views of a sequence of strings.
pub open spec fn texts(v: Seq<String>) -> Seq<Seq<char>> {
    v.map_values(|s: String| s@)
}

/// A copy of a list of strings.
pub fn clone_strings(v: &Vec<String>) -> (r: Vec<String>)
    ensures
        texts(r@) == texts(v@),
{
    let mut r: Vec<String> = Vec::new();
    let n = v.len();
    for i in 0..n
        invariant
            n == v.len(),
            r@.len() == i,
            forall|j: int| 0 <= j < i ==> #[trigger] r@[j]@ == v@[j]@,
    {
        r.push(v[i].clone());
    }
    proof {
        assert(texts(r@) =~= texts(v@));
    }
    r
}

/// The texts of an optional list of strings, or no texts.
pub open spec fn opt_texts(v: Option<Vec<String>>) -> Seq<Seq<char>> {
    match v {
        Some(l) => texts(l@),
        None => Seq::empty(),
    }
}

/// A copy of an optional list of strings, or the empty list.
pub fn strings_or_empty(v: &Option<Vec<String>>) -> (r: Vec<String>)
    ensures
        texts(r@) == opt_texts(*v),
{
    match v {
        Some(l) => clone_strings(l),
        None => Vec::new(),
    }
}

/// Two optional lists of strings are both absent, or both present with the same texts.
pub open spec fn same_opt_texts(a: Option<Vec<String>>, b: Option<Vec<String>>) -> bool {
    (a is Some <==> b is Some) && opt_texts(a) == opt_texts(b)
}

/// A copy of an optional list of strings.
pub fn clone_opt_strings(v: &Option<Vec<String>>) -> (r: Option<Vec<String>>)
    ensures
        same_opt_texts(r, *v),
{
    match v {
        Some(l) => Some(clone_strings(l)),
        None => None,
    }
}

/// The value of the first pair named `key`, if any.
pub open spec fn lookup_pair(pairs: Seq<(String, String)>, key: Seq<char>) -> Option<Seq<char>>
    decreases pairs.len(),
{
    if pairs.len() == 0 {
        None
    } else if pairs[0].0@ == key {
        Some(pairs[0].1@)
    } else {
        lookup_pair(pairs.drop_first(), key)
    }
}

/// The value of the first pair named `key`, if any.
pub fn find_pair(pairs: &Vec<(String, String)>, key: &str) -> (r: Option<String>)
    ensures
        opt_view(r) == lookup_pair(pairs@, key@),
{
    let n = pairs.len();
    let mut i: usize = 0;
    proof {
        assert(pairs@.skip(0) =~= pairs@);
    }
    while i < n
        invariant
            n == pairs.len(),
            i <= n,
            lookup_pair(pairs@, key@) == lookup_pair(pairs@.skip(i as int), key@),
        decreases n - i,
    {
        proof {
            assert(pairs@.skip(i as int).drop_first() =~= pairs@.skip(i + 1));
        }
        if str_eq(pairs[i].0.as_str(), key) {
            return Some(pairs[i].1.clone());
        }
        i = i + 1;
    }
    None
}

} // verus!
