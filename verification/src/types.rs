//! Token-efficient summaries that the core tools return.
use std::collections::BTreeMap;

use vstd::prelude::*;

verus! {

/// The rollout phase of a deployment.
#[derive(Clone, Copy, Debug, PartialEq, Eq, Structural)]
pub enum DeploymentPhase {
    Available,
    Progressing,
    Degraded,
    Failed,
    ScaledToZero,
}

/// The health of an application made of several deployments.
#[derive(Clone, Copy, Debug, PartialEq, Eq, Structural)]
pub enum ApplicationHealth {
    Healthy,
    Degraded,
    Unhealthy,
    Empty,
}

/// Desired and observed replica counts.
#[derive(Clone, Copy, Debug, PartialEq, Eq, Structural)]
pub struct ReplicaCounts {
    pub desired: i32,
    pub ready: i32,
    pub available: i32,
    pub updated: i32,
}

/// CPU and memory quantities of a resource list.
#[derive(Clone, Debug)]
pub struct ResourceSpecOutput {
    pub cpu: Option<String>,
    pub memory: Option<String>,
}

/// A deployment at a glance.
#[derive(Clone, Debug)]
pub struct DeploymentSummary {
    pub name: String,
    pub namespace: String,
    pub image: String,
    pub replicas: ReplicaCounts,
    pub status: DeploymentPhase,
    pub created_at: Option<String>,
    pub labels: BTreeMap<String, String>,
    pub resource_requests: Option<ResourceSpecOutput>,
}

/// An environment variable of the primary container.
#[derive(Clone, Debug)]
pub struct EnvVarOutput {
    pub name: String,
    pub value: Option<String>,
}

/// A deployment condition.
#[derive(Clone, Debug)]
pub struct DeploymentConditionSummary {
    pub condition_type: String,
    pub status: String,
    pub reason: Option<String>,
    pub message: Option<String>,
    pub last_transition: Option<String>,
}

/// A container health probe.
#[derive(Clone, Debug)]
pub struct ProbeOutput {
    pub probe_type: String,
    pub path: Option<String>,
    pub port: Option<i32>,
    pub command: Option<Vec<String>>,
    pub initial_delay_seconds: Option<i32>,
    pub period_seconds: Option<i32>,
    pub timeout_seconds: Option<i32>,
    pub failure_threshold: Option<i32>,
    pub success_threshold: Option<i32>,
}

/// A deployment in detail.
#[derive(Clone, Debug)]
pub struct DeploymentDetail {
    pub name: String,
    pub namespace: String,
    pub image: String,
    pub replicas: ReplicaCounts,
    pub status: DeploymentPhase,
    pub conditions: Vec<DeploymentConditionSummary>,
    pub created_at: Option<String>,
    pub labels: BTreeMap<String, String>,
    pub annotations: BTreeMap<String, String>,
    pub env: Vec<EnvVarOutput>,
    pub command: Vec<String>,
    pub args: Vec<String>,
    pub resource_limits: Option<ResourceSpecOutput>,
    pub resource_requests: Option<ResourceSpecOutput>,
    pub liveness_probe: Option<ProbeOutput>,
    pub readiness_probe: Option<ProbeOutput>,
    pub startup_probe: Option<ProbeOutput>,
}

/// The runtime state of one container of a pod.
#[derive(Clone, Debug)]
pub struct ContainerStatusSummary {
    pub name: String,
    pub ready: bool,
    pub restart_count: i32,
    pub state: String,
    pub state_reason: Option<String>,
    pub image: String,
    pub oom_killed: bool,
}

/// A pod condition.
#[derive(Clone, Debug)]
pub struct PodConditionSummary {
    pub condition_type: String,
    pub status: bool,
    pub reason: Option<String>,
    pub message: Option<String>,
}

/// A pod at a glance.
#[derive(Clone, Debug)]
pub struct PodSummary {
    pub name: String,
    pub phase: String,
    pub ready: bool,
    pub restart_count: i32,
    pub node: Option<String>,
    pub started_at: Option<String>,
    pub conditions: Vec<PodConditionSummary>,
    pub container_statuses: Vec<ContainerStatusSummary>,
    pub oom_killed: bool,
}

/// One path of an ingress rule.
#[derive(Clone, Debug)]
pub struct IngressPathSummary {
    pub path: String,
    pub path_type: String,
    pub service_name: String,
    pub service_port: i32,
}

/// One rule of an ingress.
#[derive(Clone, Debug)]
pub struct IngressRuleSummary {
    pub host: Option<String>,
    pub paths: Vec<IngressPathSummary>,
}

/// One TLS entry of an ingress.
#[derive(Clone, Debug)]
pub struct IngressTlsSummary {
    pub hosts: Vec<String>,
    pub secret_name: Option<String>,
}

/// An ingress at a glance.
#[derive(Clone, Debug)]
pub struct IngressSummary {
    pub name: String,
    pub namespace: String,
    pub hosts: Vec<String>,
    pub ingress_class: Option<String>,
    pub created_at: Option<String>,
    pub labels: BTreeMap<String, String>,
    pub addresses: Vec<String>,
}

/// An ingress in detail.
#[derive(Clone, Debug)]
pub struct IngressDetail {
    pub name: String,
    pub namespace: String,
    pub hosts: Vec<String>,
    pub ingress_class: Option<String>,
    pub created_at: Option<String>,
    pub labels: BTreeMap<String, String>,
    pub addresses: Vec<String>,
    pub rules: Vec<IngressRuleSummary>,
    pub tls: Vec<IngressTlsSummary>,
    pub annotations: BTreeMap<String, String>,
}

/// A cron job at a glance.
#[derive(Clone, Debug)]
pub struct CronJobSummary {
    pub name: String,
    pub namespace: String,
    pub schedule: String,
    pub suspend: bool,
    pub active_count: i32,
    pub last_schedule_time: Option<String>,
    pub created_at: Option<String>,
    pub labels: BTreeMap<String, String>,
}

/// A node condition.
#[derive(Clone, Debug)]
pub struct NodeConditionSummary {
    pub condition_type: String,
    pub status: String,
    pub reason: Option<String>,
    pub message: Option<String>,
    pub last_transition: Option<String>,
}

/// A node at a glance.
#[derive(Clone, Debug)]
pub struct NodeSummary {
    pub name: String,
    pub status: String,
    pub roles: Vec<String>,
    pub cpu_capacity: Option<String>,
    pub memory_capacity: Option<String>,
    pub cpu_allocatable: Option<String>,
    pub memory_allocatable: Option<String>,
    pub os_image: Option<String>,
    pub kernel_version: Option<String>,
    pub kubelet_version: Option<String>,
    pub conditions: Vec<NodeConditionSummary>,
    pub created_at: Option<String>,
}

/// An event at a glance.
#[derive(Clone, Debug)]
pub struct EventSummary {
    pub namespace: String,
    pub name: String,
    pub event_type: String,
    pub reason: Option<String>,
    pub message: Option<String>,
    pub involved_object_kind: String,
    pub involved_object_name: String,
    pub involved_object_namespace: Option<String>,
    pub count: Option<i32>,
    pub first_timestamp: Option<String>,
    pub last_timestamp: Option<String>,
    pub source_component: Option<String>,
    pub source_host: Option<String>,
}

} // verus!
