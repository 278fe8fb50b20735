//! Summaries of deployments, pods, ingresses, cron jobs, nodes and events.
use std::collections::BTreeMap;

use vstd::prelude::*;

use crate::model::{
    clone_opt, clone_opt_strings, find_pair, lookup_pair, map_or_empty, opt_map, opt_text,
    opt_texts, opt_view, same_opt_texts, strings_or_empty, text_or_empty, texts, ConditionInfo,
    ContainerInfo, CronJobInfo, DeploymentInfo, EnvVarInfo, EventInfo, PortValue, ProbeInfo,
};
use crate::text::str_eq;
use crate::types::{
    ApplicationHealth, CronJobSummary, DeploymentConditionSummary, DeploymentDetail, DeploymentPhase,
    DeploymentSummary, EnvVarOutput, EventSummary, ProbeOutput, ReplicaCounts, ResourceSpecOutput,
};

verus! {

/// An optional count, 0 when absent.
pub open spec fn count_or_zero(v: Option<i32>) -> i32 {
    match v {
        Some(n) => n,
        None => 0,
    }
}

/// The replica count a deployment asks for (1 when unspecified).
pub open spec fn desired_replicas(dep: DeploymentInfo) -> i32 {
    match dep.spec {
        Some(s) => match s.replicas {
            Some(r) => r,
            None => 1,
        },
        None => 1,
    }
}

/// The conditions of a deployment, none when it has no status.
pub open spec fn deployment_conditions(dep: DeploymentInfo) -> Seq<ConditionInfo> {
    match dep.status {
        Some(st) => match st.conditions {
            Some(c) => c@,
            None => Seq::empty(),
        },
        None => Seq::empty(),
    }
}

/// Condition `c` has type `t` and status `s`.
pub open spec fn condition_is(c: ConditionInfo, t: Seq<char>, s: Seq<char>) -> bool {
    c.type_@ == t && c.status@ == s
}

/// A condition that marks a failed rollout.
pub open spec fn is_failure_condition(c: ConditionInfo) -> bool {
    condition_is(c, "ReplicaFailure"@, "True"@) || condition_is(c, "Available"@, "False"@)
}

/// A `Progressing=True` condition that gives a reason.
pub open spec fn is_progress_report(c: ConditionInfo) -> bool {
    condition_is(c, "Progressing"@, "True"@) && c.reason is Some
}

/// The first progress report among `conds`, if any.
pub open spec fn first_progress_report(conds: Seq<ConditionInfo>) -> Option<ConditionInfo>
    decreases conds.len(),
{
    if conds.len() == 0 {
        None
    } else if is_progress_report(conds[0]) {
        Some(conds[0])
    } else {
        first_progress_report(conds.drop_first())
    }
}

/// The rollout phase of a deployment: a failure condition means failed; else
/// the first progress report decides (available only once the new replica
/// set is available and enough replicas are available and updated); else the
/// replica counts decide.
pub open spec fn phase_of(dep: DeploymentInfo) -> DeploymentPhase {
    match dep.status {
        None => DeploymentPhase::Progressing,
        Some(st) => {
            let desired = desired_replicas(dep);
            let available = count_or_zero(st.available_replicas);
            let updated = count_or_zero(st.updated_replicas);
            let conds = deployment_conditions(dep);
            if exists|i: int| 0 <= i < conds.len() && is_failure_condition(#[trigger] conds[i]) {
                DeploymentPhase::Failed
            } else if first_progress_report(conds) is Some {
                let c = first_progress_report(conds)->0;
                if c.reason->0@ == "NewReplicaSetAvailable"@ && available >= desired && updated
                    >= desired {
                    DeploymentPhase::Available
                } else {
                    DeploymentPhase::Progressing
                }
            } else if desired == 0 {
                DeploymentPhase::ScaledToZero
            } else if available >= desired {
                DeploymentPhase::Available
            } else if available > 0 {
                DeploymentPhase::Degraded
            } else {
                DeploymentPhase::Progressing
            }
        },
    }
}

/// The first condition of `conds` that is `Progressing=True` with a reason
/// is found at its index.
proof fn lemma_first_progress_report_at(conds: Seq<ConditionInfo>, k: int)
    requires
        0 <= k < conds.len(),
        conds[k].type_@ == "Progressing"@ && conds[k].status@ == "True"@ && conds[k].reason is Some,
        forall|i: int|
            0 <= i < k ==> !((#[trigger] conds[i]).type_@ == "Progressing"@ && conds[i].status@
                == "True"@ && conds[i].reason is Some),
    ensures
        first_progress_report(conds) == Some(conds[k]),
    decreases k,
{
    if k > 0 {
        assert(!is_progress_report(conds[0]));
        let rest = conds.drop_first();
        assert forall|i: int|
            0 <= i < k - 1 implies !((#[trigger] rest[i]).type_@ == "Progressing"@ && rest[i].status@
                == "True"@ && rest[i].reason is Some) by {
            assert(rest[i] == conds[i + 1]);
        }
        lemma_first_progress_report_at(rest, k - 1);
    }
}

/// The rollout phase follows the first `Progressing=True` report: with no
/// `ReplicaFailure=True` or `Available=False` condition, a first report whose
/// reason is `NewReplicaSetAvailable`, with at least the desired number of
/// replicas available and updated, means the deployment is available; a
/// first report with any other reason, or with too few replicas, means it is
/// still progressing.
pub proof fn lemma_phase_follows_first_progress_report(dep: DeploymentInfo, k: int)
    requires
        dep.status is Some,
        0 <= k < deployment_conditions(dep).len(),
        ({
            let conds = deployment_conditions(dep);
            &&& conds[k].type_@ == "Progressing"@
            &&& conds[k].status@ == "True"@
            &&& conds[k].reason is Some
            &&& forall|i: int|
                0 <= i < k ==> !((#[trigger] conds[i]).type_@ == "Progressing"@ && conds[i].status@
                    == "True"@ && conds[i].reason is Some)
            &&& forall|i: int|
                0 <= i < conds.len() ==> !((#[trigger] conds[i]).type_@ == "ReplicaFailure"@
                    && conds[i].status@ == "True"@) && !(conds[i].type_@ == "Available"@
                    && conds[i].status@ == "False"@)
        }),
    ensures
        ({
            let st = dep.status->0;
            let c = deployment_conditions(dep)[k];
            let rolled_out = c.reason->0@ == "NewReplicaSetAvailable"@ && count_or_zero(
                st.available_replicas,
            ) >= desired_replicas(dep) && count_or_zero(st.updated_replicas) >= desired_replicas(
                dep,
            );
            &&& rolled_out ==> phase_of(dep) == DeploymentPhase::Available
            &&& !rolled_out ==> phase_of(dep) == DeploymentPhase::Progressing
        }),
{
    let conds = deployment_conditions(dep);
    lemma_first_progress_report_at(conds, k);
    assert(!exists|i: int| 0 <= i < conds.len() && is_failure_condition(#[trigger] conds[i]));
}

proof fn lemma_no_progress_report(conds: Seq<ConditionInfo>)
    requires
        forall|i: int|
            0 <= i < conds.len() ==> !((#[trigger] conds[i]).type_@ == "Progressing"@ && conds[i].status@
                == "True"@ && conds[i].reason is Some),
    ensures
        first_progress_report(conds) is None,
    decreases conds.len(),
{
    if conds.len() > 0 {
        let rest = conds.drop_first();
        assert forall|i: int|
            0 <= i < rest.len() implies !((#[trigger] rest[i]).type_@ == "Progressing"@ && rest[i].status@
                == "True"@ && rest[i].reason is Some) by {
            assert(rest[i] == conds[i + 1]);
        }
        lemma_no_progress_report(rest);
    }
}

/// Without a failure condition or a `Progressing=True` report, the replica
/// counts decide: none desired is scaled to zero; all desired available is
/// available; some is degraded; none is progressing. A deployment with no
/// status yet is progressing.
pub proof fn lemma_phase_from_counts(dep: DeploymentInfo)
    requires
        forall|i: int|
            0 <= i < deployment_conditions(dep).len() ==> {
                let c = #[trigger] deployment_conditions(dep)[i];
                &&& !(c.type_@ == "Progressing"@ && c.status@ == "True"@ && c.reason is Some)
                &&& !(c.type_@ == "ReplicaFailure"@ && c.status@ == "True"@)
                &&& !(c.type_@ == "Available"@ && c.status@ == "False"@)
            },
    ensures
        dep.status is None ==> phase_of(dep) == DeploymentPhase::Progressing,
        dep.status matches Some(st) ==> {
            let desired = desired_replicas(dep);
            let available = count_or_zero(st.available_replicas);
            &&& desired == 0 ==> phase_of(dep) == DeploymentPhase::ScaledToZero
            &&& desired != 0 && available >= desired ==> phase_of(dep) == DeploymentPhase::Available
            &&& desired != 0 && 0 < available < desired ==> phase_of(dep) == DeploymentPhase::Degraded
            &&& desired != 0 && available <= 0 && available < desired ==> phase_of(dep)
                == DeploymentPhase::Progressing
        },
{
    let conds = deployment_conditions(dep);
    assert forall|i: int|
        0 <= i < conds.len() implies !((#[trigger] conds[i]).type_@ == "Progressing"@ && conds[i].status@
            == "True"@ && conds[i].reason is Some) by {
        assert(deployment_conditions(dep)[i] == conds[i]);
    }
    lemma_no_progress_report(conds);
    assert(!exists|i: int| 0 <= i < conds.len() && is_failure_condition(#[trigger] conds[i])) by {
        assert forall|i: int| 0 <= i < conds.len() implies !is_failure_condition(#[trigger] conds[i]) by {
            assert(deployment_conditions(dep)[i] == conds[i]);
        }
    }
}

/// A `ReplicaFailure=True` or `Available=False` condition means the rollout failed.
pub proof fn lemma_failure_condition_means_failed(dep: DeploymentInfo, k: int)
    requires
        dep.status is Some,
        0 <= k < deployment_conditions(dep).len(),
        ({
            let c = deployment_conditions(dep)[k];
            (c.type_@ == "ReplicaFailure"@ && c.status@ == "True"@) || (c.type_@ == "Available"@
                && c.status@ == "False"@)
        }),
    ensures
        phase_of(dep) == DeploymentPhase::Failed,
{
    assert(is_failure_condition(deployment_conditions(dep)[k]));
}

fn is_condition(c: &ConditionInfo, t: &str, s: &str) -> (r: bool)
    ensures
        r == condition_is(*c, t@, s@),
{
    str_eq(c.type_.as_str(), t) && str_eq(c.status.as_str(), s)
}

fn opt_count(v: Option<i32>) -> (r: i32)
    ensures
        r == count_or_zero(v),
{
    match v {
        Some(n) => n,
        None => 0,
    }
}

/// The rollout phase of a deployment.
pub fn deployment_phase(dep: &DeploymentInfo) -> (r: DeploymentPhase)
    ensures
        r == phase_of(*dep),
{
    let status = match &dep.status {
        Some(s) => s,
        None => return DeploymentPhase::Progressing,
    };
    let desired = match &dep.spec {
        Some(s) => match s.replicas {
            Some(r) => r,
            None => 1,
        },
        None => 1,
    };
    let available = opt_count(status.available_replicas);
    let updated = opt_count(status.updated_replicas);
    if let Some(conditions) = &status.conditions {
        let n = conditions.len();
        for i in 0..n
            invariant
                n == conditions@.len(),
                conditions@ == deployment_conditions(*dep),
                forall|j: int| 0 <= j < i ==> !is_failure_condition(#[trigger] conditions@[j]),
        {
            let c = &conditions[i];
            if is_condition(c, "ReplicaFailure", "True") {
                return DeploymentPhase::Failed;
            }
            if is_condition(c, "Available", "False") {
                return DeploymentPhase::Failed;
            }
        }
        let mut i: usize = 0;
        proof {
            assert(conditions@.skip(0) =~= conditions@);
        }
        while i < n
            invariant
                n == conditions@.len(),
                i <= n,
                conditions@ == deployment_conditions(*dep),
                dep.status == Some(*status),
                desired == desired_replicas(*dep),
                available == count_or_zero(status.available_replicas),
                updated == count_or_zero(status.updated_replicas),
                forall|j: int| 0 <= j < n ==> !is_failure_condition(#[trigger] conditions@[j]),
                first_progress_report(conditions@) == first_progress_report(
                    conditions@.skip(i as int),
                ),
            decreases n - i,
        {
            proof {
                assert(conditions@.skip(i as int).drop_first() =~= conditions@.skip(i + 1));
            }
            let c = &conditions[i];
            proof {
                assert(conditions@.skip(i as int)[0] == conditions@[i as int]);
            }
            if is_condition(c, "Progressing", "True") {
                if let Some(reason) = &c.reason {
                    if str_eq(reason.as_str(), "NewReplicaSetAvailable") && available >= desired
                        && updated >= desired {
                        return DeploymentPhase::Available;
                    }
                    return DeploymentPhase::Progressing;
                }
            }
            i = i + 1;
        }
    }
    if desired == 0 {
        DeploymentPhase::ScaledToZero
    } else if available >= desired {
        DeploymentPhase::Available
    } else if available > 0 {
        DeploymentPhase::Degraded
    } else {
        DeploymentPhase::Progressing
    }
}

/// The replica counts of a deployment (desired 1 and observed 0 when unspecified).
pub open spec fn replica_counts_of(dep: DeploymentInfo) -> ReplicaCounts {
    ReplicaCounts {
        desired: desired_replicas(dep),
        ready: match dep.status {
            Some(s) => count_or_zero(s.ready_replicas),
            None => 0,
        },
        available: match dep.status {
            Some(s) => count_or_zero(s.available_replicas),
            None => 0,
        },
        updated: match dep.status {
            Some(s) => count_or_zero(s.updated_replicas),
            None => 0,
        },
    }
}

/// Desired and observed replica counts of a deployment.
pub fn replica_counts(dep: &DeploymentInfo) -> (r: ReplicaCounts)
    ensures
        r == replica_counts_of(*dep),
{
    let desired = match &dep.spec {
        Some(s) => match s.replicas {
            Some(r) => r,
            None => 1,
        },
        None => 1,
    };
    match &dep.status {
        Some(s) => ReplicaCounts {
            desired,
            ready: opt_count(s.ready_replicas),
            available: opt_count(s.available_replicas),
            updated: opt_count(s.updated_replicas),
        },
        None => ReplicaCounts { desired, ready: 0, available: 0, updated: 0 },
    }
}

/// The first container of a deployment's pod template, if any.
pub open spec fn primary_container_of(dep: DeploymentInfo) -> Option<ContainerInfo> {
    match dep.spec {
        Some(s) => match s.containers {
            Some(cs) => if cs@.len() > 0 {
                Some(cs@[0])
            } else {
                None
            },
            None => None,
        },
        None => None,
    }
}

/// The image of the primary container, empty when there is none.
pub open spec fn primary_image_of(dep: DeploymentInfo) -> Seq<char> {
    match primary_container_of(dep) {
        Some(c) => opt_text(c.image),
        None => Seq::empty(),
    }
}

fn primary_container(dep: &DeploymentInfo) -> (r: Option<&ContainerInfo>)
    ensures
        match r {
            Some(c) => primary_container_of(*dep) == Some(*c),
            None => primary_container_of(*dep) is None,
        },
{
    match &dep.spec {
        Some(s) => match &s.containers {
            Some(cs) => if cs.len() > 0 {
                Some(&cs[0])
            } else {
                None
            },
            None => None,
        },
        None => None,
    }
}

/// The image of a deployment's first container, or the empty string.
pub fn primary_image(dep: &DeploymentInfo) -> (r: String)
    ensures
        r@ == primary_image_of(*dep),
{
    match primary_container(dep) {
        Some(c) => text_or_empty(&c.image),
        None => String::new(),
    }
}

/// `out` holds the `cpu` and `memory` entries of `list`, or is absent with it.
pub open spec fn resource_spec_matches(
    out: Option<ResourceSpecOutput>,
    list: Option<Vec<(String, String)>>,
) -> bool {
    match (out, list) {
        (None, None) => true,
        (Some(o), Some(l)) => opt_view(o.cpu) == lookup_pair(l@, "cpu"@) && opt_view(o.memory)
            == lookup_pair(l@, "memory"@),
        _ => false,
    }
}

fn resource_spec(list: &Option<Vec<(String, String)>>) -> (r: Option<ResourceSpecOutput>)
    ensures
        resource_spec_matches(r, *list),
{
    match list {
        Some(l) => Some(ResourceSpecOutput { cpu: find_pair(l, "cpu"), memory: find_pair(l, "memory") }),
        None => None,
    }
}

/// The resource requests (or limits, when `limits`) of the primary container.
pub open spec fn primary_resources(dep: DeploymentInfo, limits: bool) -> Option<
    Vec<(String, String)>,
> {
    match primary_container_of(dep) {
        Some(c) => match c.resources {
            Some(r) => if limits {
                r.limits
            } else {
                r.requests
            },
            None => None,
        },
        None => None,
    }
}

fn container_resources(c: Option<&ContainerInfo>, limits: bool) -> (r: Option<ResourceSpecOutput>)
    ensures
        resource_spec_matches(
            r,
            match c {
                Some(c) => match c.resources {
                    Some(res) => if limits {
                        res.limits
                    } else {
                        res.requests
                    },
                    None => None,
                },
                None => None,
            },
        ),
{
    match c {
        Some(c) => match &c.resources {
            Some(res) => if limits {
                resource_spec(&res.limits)
            } else {
                resource_spec(&res.requests)
            },
            None => None,
        },
        None => None,
    }
}

/// A summary carries a deployment's name, namespace, image, replica counts,
/// phase, creation time, labels and resource requests.
pub open spec fn is_deployment_summary(r: DeploymentSummary, dep: DeploymentInfo) -> bool {
    &&& r.name@ == opt_text(dep.metadata.name)
    &&& r.namespace@ == opt_text(dep.metadata.namespace)
    &&& r.image@ == primary_image_of(dep)
    &&& r.replicas == replica_counts_of(dep)
    &&& r.status == phase_of(dep)
    &&& opt_view(r.created_at) == opt_view(dep.metadata.creation_timestamp)
    &&& r.labels@ == opt_map(dep.metadata.labels)
    &&& resource_spec_matches(r.resource_requests, primary_resources(dep, false))
}

/// A deployment at a glance.
pub fn deployment_summary(dep: &DeploymentInfo) -> (r: DeploymentSummary)
    ensures
        is_deployment_summary(r, *dep),
{
    let meta = &dep.metadata;
    DeploymentSummary {
        name: text_or_empty(&meta.name),
        namespace: text_or_empty(&meta.namespace),
        image: primary_image(dep),
        replicas: replica_counts(dep),
        status: deployment_phase(dep),
        created_at: clone_opt(&meta.creation_timestamp),
        labels: map_or_empty(&meta.labels),
        resource_requests: container_resources(primary_container(dep), false),
    }
}

/// The number a port gives, if it is given as a number.
pub open spec fn port_number(p: PortValue) -> Option<i32> {
    match p {
        PortValue::Int(n) => Some(n),
        PortValue::Name(_) => None,
    }
}

/// `out` describes probe `p`: the first of its HTTP GET, TCP socket and exec
/// actions that is set gives the type (`"unknown"` when none is), with path,
/// numeric port and command where that action has them, and the timings.
pub open spec fn is_probe_output(out: ProbeOutput, p: ProbeInfo) -> bool {
    &&& match p.http_get {
        Some(h) => out.probe_type@ == "httpGet"@ && opt_view(out.path) == opt_view(h.path)
            && out.port == port_number(h.port) && out.command is None,
        None => match p.tcp_socket_port {
            Some(port) => out.probe_type@ == "tcpSocket"@ && out.path is None && out.port
                == port_number(port) && out.command is None,
            None => match p.exec_command {
                Some(cmd) => out.probe_type@ == "exec"@ && out.path is None && out.port is None
                    && same_opt_texts(out.command, cmd),
                None => out.probe_type@ == "unknown"@ && out.path is None && out.port is None
                    && out.command is None,
            },
        },
    }
    &&& out.initial_delay_seconds == p.initial_delay_seconds
    &&& out.period_seconds == p.period_seconds
    &&& out.timeout_seconds == p.timeout_seconds
    &&& out.failure_threshold == p.failure_threshold
    &&& out.success_threshold == p.success_threshold
}

fn port_of(p: &PortValue) -> (r: Option<i32>)
    ensures
        r == port_number(*p),
{
    match p {
        PortValue::Int(n) => Some(*n),
        PortValue::Name(_) => None,
    }
}

/// Summarize a container health probe.
pub fn extract_probe(probe: &ProbeInfo) -> (r: ProbeOutput)
    ensures
        is_probe_output(r, *probe),
{
    let (probe_type, path, port, command) = if let Some(http) = &probe.http_get {
        (String::from_str("httpGet"), clone_opt(&http.path), port_of(&http.port), None)
    } else if let Some(port) = &probe.tcp_socket_port {
        (String::from_str("tcpSocket"), None, port_of(port), None)
    } else if let Some(cmd) = &probe.exec_command {
        (String::from_str("exec"), None, None, clone_opt_strings(cmd))
    } else {
        (String::from_str("unknown"), None, None, None)
    };
    ProbeOutput {
        probe_type,
        path,
        port,
        command,
        initial_delay_seconds: probe.initial_delay_seconds,
        period_seconds: probe.period_seconds,
        timeout_seconds: probe.timeout_seconds,
        failure_threshold: probe.failure_threshold,
        success_threshold: probe.success_threshold,
    }
}

/// `out` describes the optional probe `p`.
pub open spec fn is_opt_probe_output(out: Option<ProbeOutput>, p: Option<ProbeInfo>) -> bool {
    match (out, p) {
        (None, None) => true,
        (Some(o), Some(q)) => is_probe_output(o, q),
        _ => false,
    }
}

fn opt_probe(p: &Option<ProbeInfo>) -> (r: Option<ProbeOutput>)
    ensures
        is_opt_probe_output(r, *p),
{
    match p {
        Some(q) => Some(extract_probe(q)),
        None => None,
    }
}

/// `out` copies condition `c`.
pub open spec fn is_deployment_condition(out: DeploymentConditionSummary, c: ConditionInfo) -> bool {
    &&& out.condition_type@ == c.type_@
    &&& out.status@ == c.status@
    &&& opt_view(out.reason) == opt_view(c.reason)
    &&& opt_view(out.message) == opt_view(c.message)
    &&& opt_view(out.last_transition) == opt_view(c.last_transition_time)
}

fn deployment_conditions_of(conds: &Vec<ConditionInfo>) -> (r: Vec<DeploymentConditionSummary>)
    ensures
        r@.len() == conds@.len(),
        forall|i: int| 0 <= i < conds@.len() ==> is_deployment_condition(#[trigger] r@[i], conds@[i]),
{
    let mut r: Vec<DeploymentConditionSummary> = Vec::new();
    let n = conds.len();
    for i in 0..n
        invariant
            n == conds@.len(),
            r@.len() == i,
            forall|j: int| 0 <= j < i ==> is_deployment_condition(#[trigger] r@[j], conds@[j]),
    {
        let c = &conds[i];
        r.push(
            DeploymentConditionSummary {
                condition_type: c.type_.clone(),
                status: c.status.clone(),
                reason: clone_opt(&c.reason),
                message: clone_opt(&c.message),
                last_transition: clone_opt(&c.last_transition_time),
            },
        );
    }
    r
}

/// The environment variables of the primary container, none when it has none.
pub open spec fn primary_env_of(dep: DeploymentInfo) -> Seq<EnvVarInfo> {
    match primary_container_of(dep) {
        Some(c) => match c.env {
            Some(e) => e@,
            None => Seq::empty(),
        },
        None => Seq::empty(),
    }
}

/// The command (or the args, when `args`) of the primary container.
pub open spec fn primary_words_of(dep: DeploymentInfo, args: bool) -> Seq<Seq<char>> {
    match primary_container_of(dep) {
        Some(c) => opt_texts(
            if args {
                c.args
            } else {
                c.command
            },
        ),
        None => Seq::empty(),
    }
}

/// A probe of the primary container: 0 liveness, 1 readiness, 2 startup.
pub open spec fn primary_probe_of(dep: DeploymentInfo, which: int) -> Option<ProbeInfo> {
    match primary_container_of(dep) {
        Some(c) => if which == 0 {
            c.liveness_probe
        } else if which == 1 {
            c.readiness_probe
        } else {
            c.startup_probe
        },
        None => None,
    }
}

fn env_outputs(c: Option<&ContainerInfo>) -> (r: Vec<EnvVarOutput>)
    ensures
        ({
            let env = match c {
                Some(c) => match c.env {
                    Some(e) => e@,
                    None => Seq::empty(),
                },
                None => Seq::<EnvVarInfo>::empty(),
            };
            &&& r@.len() == env.len()
            &&& forall|i: int|
                #![trigger r@[i]]
                0 <= i < env.len() ==> r@[i].name@ == env[i].name@ && opt_view(r@[i].value)
                    == opt_view(env[i].value)
        }),
{
    let mut r: Vec<EnvVarOutput> = Vec::new();
    if let Some(c) = c {
        if let Some(vars) = &c.env {
            let n = vars.len();
            for i in 0..n
                invariant
                    n == vars@.len(),
                    r@.len() == i,
                    forall|j: int|
                        #![trigger r@[j]]
                        0 <= j < i ==> r@[j].name@ == vars@[j].name@ && opt_view(r@[j].value)
                            == opt_view(vars@[j].value),
            {
                r.push(EnvVarOutput { name: vars[i].name.clone(), value: clone_opt(&vars[i].value) });
            }
        }
    }
    r
}

/// A detail view carries everything a summary does, plus conditions,
/// annotations, and the primary container's environment, command, args,
/// resource limits and requests and probes.
pub open spec fn is_deployment_detail(r: DeploymentDetail, dep: DeploymentInfo) -> bool {
    &&& r.name@ == opt_text(dep.metadata.name)
    &&& r.namespace@ == opt_text(dep.metadata.namespace)
    &&& r.image@ == primary_image_of(dep)
    &&& r.replicas == replica_counts_of(dep)
    &&& r.status == phase_of(dep)
    &&& r.conditions@.len() == deployment_conditions(dep).len()
    &&& forall|i: int|
        0 <= i < r.conditions@.len() ==> is_deployment_condition(
            #[trigger] r.conditions@[i],
            deployment_conditions(dep)[i],
        )
    &&& opt_view(r.created_at) == opt_view(dep.metadata.creation_timestamp)
    &&& r.labels@ == opt_map(dep.metadata.labels)
    &&& r.annotations@ == opt_map(dep.metadata.annotations)
    &&& r.env@.len() == primary_env_of(dep).len()
    &&& forall|i: int|
        #![trigger r.env@[i]]
        0 <= i < r.env@.len() ==> r.env@[i].name@ == primary_env_of(dep)[i].name@ && opt_view(
            r.env@[i].value,
        ) == opt_view(primary_env_of(dep)[i].value)
    &&& texts(r.command@) == primary_words_of(dep, false)
    &&& texts(r.args@) == primary_words_of(dep, true)
    &&& resource_spec_matches(r.resource_limits, primary_resources(dep, true))
    &&& resource_spec_matches(r.resource_requests, primary_resources(dep, false))
    &&& is_opt_probe_output(r.liveness_probe, primary_probe_of(dep, 0))
    &&& is_opt_probe_output(r.readiness_probe, primary_probe_of(dep, 1))
    &&& is_opt_probe_output(r.startup_probe, primary_probe_of(dep, 2))
}

/// A deployment in detail.
pub fn deployment_detail(dep: &DeploymentInfo) -> (r: DeploymentDetail)
    ensures
        is_deployment_detail(r, *dep),
{
    let meta = &dep.metadata;
    let container = primary_container(dep);
    let env = env_outputs(container);
    let (command, args) = match container {
        Some(c) => (strings_or_empty(&c.command), strings_or_empty(&c.args)),
        None => (Vec::new(), Vec::new()),
    };
    proof {
        assert(texts(Seq::<String>::empty()) =~= Seq::<Seq<char>>::empty());
    }
    let conditions = match &dep.status {
        Some(s) => match &s.conditions {
            Some(c) => deployment_conditions_of(c),
            None => Vec::new(),
        },
        None => Vec::new(),
    };
    let (liveness_probe, readiness_probe, startup_probe) = match container {
        Some(c) => (opt_probe(&c.liveness_probe), opt_probe(&c.readiness_probe), opt_probe(&c.startup_probe)),
        None => (None, None, None),
    };
    DeploymentDetail {
        name: text_or_empty(&meta.name),
        namespace: text_or_empty(&meta.namespace),
        image: primary_image(dep),
        replicas: replica_counts(dep),
        status: deployment_phase(dep),
        conditions,
        created_at: clone_opt(&meta.creation_timestamp),
        labels: map_or_empty(&meta.labels),
        annotations: map_or_empty(&meta.annotations),
        env,
        command,
        args,
        resource_limits: container_resources(container, true),
        resource_requests: container_resources(container, false),
        liveness_probe,
        readiness_probe,
        startup_probe,
    }
}

/// A deployment counts as up when it is available or deliberately scaled to zero.
pub open spec fn is_up(p: DeploymentPhase) -> bool {
    p == DeploymentPhase::Available || p == DeploymentPhase::ScaledToZero
}

/// The health of an application: empty with no deployments, healthy when all
/// are up, degraded when some are, unhealthy when none is.
pub open spec fn health_of(deps: Seq<DeploymentSummary>) -> ApplicationHealth {
    if deps.len() == 0 {
        ApplicationHealth::Empty
    } else if forall|i: int| 0 <= i < deps.len() ==> is_up(#[trigger] deps[i].status) {
        ApplicationHealth::Healthy
    } else if exists|i: int| 0 <= i < deps.len() && is_up(#[trigger] deps[i].status) {
        ApplicationHealth::Degraded
    } else {
        ApplicationHealth::Unhealthy
    }
}

/// The phases that occur among `deps`.
pub open spec fn phases_of(deps: Seq<DeploymentSummary>) -> Set<DeploymentPhase> {
    Set::new(|p: DeploymentPhase| exists|i: int| 0 <= i < deps.len() && #[trigger] deps[i].status == p)
}

/// An application's health depends only on whether it has deployments and
/// on which phases occur among them: not on their order, their number, or
/// anything else about them.
pub proof fn lemma_health_by_phases(a: Seq<DeploymentSummary>, b: Seq<DeploymentSummary>)
    requires
        (a.len() == 0) == (b.len() == 0),
        phases_of(a) == phases_of(b),
    ensures
        health_of(a) == health_of(b),
{
    assert forall|x: Seq<DeploymentSummary>, y: Seq<DeploymentSummary>|
        phases_of(x) == phases_of(y) && (forall|i: int|
            0 <= i < x.len() ==> is_up(#[trigger] x[i].status)) implies (forall|j: int|
            0 <= j < y.len() ==> is_up(#[trigger] y[j].status)) by {
        assert forall|j: int| 0 <= j < y.len() implies is_up(#[trigger] y[j].status) by {
            assert(phases_of(y).contains(y[j].status));
            assert(phases_of(x).contains(y[j].status));
        }
    }
    assert forall|x: Seq<DeploymentSummary>, y: Seq<DeploymentSummary>|
        phases_of(x) == phases_of(y) && (exists|i: int|
            0 <= i < x.len() && is_up(#[trigger] x[i].status)) implies (exists|j: int|
            0 <= j < y.len() && is_up(#[trigger] y[j].status)) by {
        let i = choose|i: int| 0 <= i < x.len() && is_up(#[trigger] x[i].status);
        assert(phases_of(x).contains(x[i].status));
        assert(phases_of(y).contains(x[i].status));
    }
}

/// The health of an application made of `deployments`.
pub fn compute_application_health(deployments: &[DeploymentSummary]) -> (r: ApplicationHealth)
    ensures
        r == health_of(deployments@),
{
    let n = deployments.len();
    if n == 0 {
        return ApplicationHealth::Empty;
    }
    let mut all_up = true;
    let mut any_up = false;
    for i in 0..n
        invariant
            n == deployments@.len(),
            all_up == forall|j: int| 0 <= j < i ==> is_up(#[trigger] deployments@[j].status),
            any_up == exists|j: int| 0 <= j < i && is_up(#[trigger] deployments@[j].status),
    {
        let up = match deployments[i].status {
            DeploymentPhase::Available | DeploymentPhase::ScaledToZero => true,
            _ => false,
        };
        proof {
            if up {
                assert(is_up(deployments@[i as int].status));
            }
        }
        all_up = all_up && up;
        any_up = any_up || up;
    }
    if all_up {
        ApplicationHealth::Healthy
    } else if any_up {
        ApplicationHealth::Degraded
    } else {
        ApplicationHealth::Unhealthy
    }
}


/// `out` summarises cron job `cj`: its schedule, whether it is suspended
/// (no by default), how many jobs are active (as a 32-bit count) and when it
/// last ran.
pub open spec fn is_cronjob_summary(out: CronJobSummary, cj: CronJobInfo) -> bool {
    &&& out.name@ == opt_text(cj.metadata.name)
    &&& out.namespace@ == opt_text(cj.metadata.namespace)
    &&& out.schedule@ == (match cj.spec {
        Some(s) => s.schedule@,
        None => Seq::empty(),
    })
    &&& out.suspend == (match cj.spec {
        Some(s) => s.suspend == Some(true),
        None => false,
    })
    &&& out.active_count == (match cj.status {
        Some(st) => match st.active {
            Some(a) => a@.len() as i32,
            None => 0,
        },
        None => 0,
    })
    &&& opt_view(out.last_schedule_time) == (match cj.status {
        Some(st) => opt_view(st.last_schedule_time),
        None => None,
    })
    &&& opt_view(out.created_at) == opt_view(cj.metadata.creation_timestamp)
    &&& out.labels@ == opt_map(cj.metadata.labels)
}

/// A cron job at a glance.
pub fn cronjob_summary(cj: &CronJobInfo) -> (r: CronJobSummary)
    ensures
        is_cronjob_summary(r, *cj),
{
    let (schedule, suspend) = match &cj.spec {
        Some(s) => (s.schedule.clone(), match s.suspend {
            Some(b) => b,
            None => false,
        }),
        None => (String::new(), false),
    };
    let (active_count, last_schedule_time) = match &cj.status {
        Some(st) => (match &st.active {
            Some(a) => a.len() as i32,
            None => 0,
        }, clone_opt(&st.last_schedule_time)),
        None => (0, None),
    };
    CronJobSummary {
        name: text_or_empty(&cj.metadata.name),
        namespace: text_or_empty(&cj.metadata.namespace),
        schedule,
        suspend,
        active_count,
        last_schedule_time,
        created_at: clone_opt(&cj.metadata.creation_timestamp),
        labels: map_or_empty(&cj.metadata.labels),
    }
}

/// `out` summarises event `ev`; an event without a type counts as `Normal`.
pub open spec fn is_event_summary(out: EventSummary, ev: EventInfo) -> bool {
    &&& out.namespace@ == opt_text(ev.metadata.namespace)
    &&& out.name@ == opt_text(ev.metadata.name)
    &&& out.event_type@ == (match ev.type_ {
        Some(t) => t@,
        None => "Normal"@,
    })
    &&& opt_view(out.reason) == opt_view(ev.reason)
    &&& opt_view(out.message) == opt_view(ev.message)
    &&& out.involved_object_kind@ == opt_text(ev.involved_object.kind)
    &&& out.involved_object_name@ == opt_text(ev.involved_object.name)
    &&& opt_view(out.involved_object_namespace) == opt_view(ev.involved_object.namespace)
    &&& out.count == ev.count
    &&& opt_view(out.first_timestamp) == opt_view(ev.first_timestamp)
    &&& opt_view(out.last_timestamp) == opt_view(ev.last_timestamp)
    &&& opt_view(out.source_component) == (match ev.source {
        Some(s) => opt_view(s.component),
        None => None,
    })
    &&& opt_view(out.source_host) == (match ev.source {
        Some(s) => opt_view(s.host),
        None => None,
    })
}

/// An event at a glance.
pub fn event_summary(ev: &EventInfo) -> (r: EventSummary)
    ensures
        is_event_summary(r, *ev),
{
    let event_type = match &ev.type_ {
        Some(t) => t.clone(),
        None => String::from_str("Normal"),
    };
    proof {
        reveal_strlit("Normal");
    }
    let (source_component, source_host) = match &ev.source {
        Some(s) => (clone_opt(&s.component), clone_opt(&s.host)),
        None => (None, None),
    };
    EventSummary {
        namespace: text_or_empty(&ev.metadata.namespace),
        name: text_or_empty(&ev.metadata.name),
        event_type,
        reason: clone_opt(&ev.reason),
        message: clone_opt(&ev.message),
        involved_object_kind: text_or_empty(&ev.involved_object.kind),
        involved_object_name: text_or_empty(&ev.involved_object.name),
        involved_object_namespace: clone_opt(&ev.involved_object.namespace),
        count: ev.count,
        first_timestamp: clone_opt(&ev.first_timestamp),
        last_timestamp: clone_opt(&ev.last_timestamp),
        source_component,
        source_host,
    }
}

/// A cron job in detail.
#[derive(Clone, Debug)]
pub struct CronJobDetail {
    pub name: String,
    pub namespace: String,
    pub schedule: String,
    pub suspend: bool,
    pub active_count: i32,
    pub last_schedule_time: Option<String>,
    pub created_at: Option<String>,
    pub labels: BTreeMap<String, String>,
    pub annotations: BTreeMap<String, String>,
    pub concurrency_policy: String,
    pub successful_jobs_history_limit: Option<i32>,
    pub failed_jobs_history_limit: Option<i32>,
    pub image: String,
}

/// `out` describes cron job `cj`: the summary's facts, plus annotations, the
/// concurrency policy (`Allow` by default), the history limits and the image
/// of the job template's first container.
pub open spec fn is_cronjob_detail(out: CronJobDetail, cj: CronJobInfo) -> bool {
    let s = CronJobSummary {
        name: out.name,
        namespace: out.namespace,
        schedule: out.schedule,
        suspend: out.suspend,
        active_count: out.active_count,
        last_schedule_time: out.last_schedule_time,
        created_at: out.created_at,
        labels: out.labels,
    };
    &&& is_cronjob_summary(s, cj)
    &&& out.annotations@ == opt_map(cj.metadata.annotations)
    &&& out.concurrency_policy@ == (match cj.spec {
        Some(sp) => match sp.concurrency_policy {
            Some(p) => p@,
            None => "Allow"@,
        },
        None => "Allow"@,
    })
    &&& out.successful_jobs_history_limit == (match cj.spec {
        Some(sp) => sp.successful_jobs_history_limit,
        None => None,
    })
    &&& out.failed_jobs_history_limit == (match cj.spec {
        Some(sp) => sp.failed_jobs_history_limit,
        None => None,
    })
    &&& out.image@ == (match cj.spec {
        Some(sp) => match sp.containers {
            Some(cs) => if cs@.len() > 0 {
                opt_text(cs@[0].image)
            } else {
                Seq::empty()
            },
            None => Seq::empty(),
        },
        None => Seq::empty(),
    })
}

/// A cron job in detail.
pub fn cronjob_detail(cj: &CronJobInfo) -> (r: CronJobDetail)
    ensures
        is_cronjob_detail(r, *cj),
{
    let s = cronjob_summary(cj);
    proof {
        reveal_strlit("Allow");
    }
    let (concurrency_policy, successful, failed, image) = match &cj.spec {
        Some(sp) => (
            match &sp.concurrency_policy {
                Some(p) => p.clone(),
                None => String::from_str("Allow"),
            },
            sp.successful_jobs_history_limit,
            sp.failed_jobs_history_limit,
            match &sp.containers {
                Some(cs) => if cs.len() > 0 {
                    text_or_empty(&cs[0].image)
                } else {
                    String::new()
                },
                None => String::new(),
            },
        ),
        None => (String::from_str("Allow"), None, None, String::new()),
    };
    CronJobDetail {
        name: s.name,
        namespace: s.namespace,
        schedule: s.schedule,
        suspend: s.suspend,
        active_count: s.active_count,
        last_schedule_time: s.last_schedule_time,
        created_at: s.created_at,
        labels: s.labels,
        annotations: map_or_empty(&cj.metadata.annotations),
        concurrency_policy,
        successful_jobs_history_limit: successful,
        failed_jobs_history_limit: failed,
        image,
    }
}

} // verus!
