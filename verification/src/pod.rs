//! Pod summaries: container states, readiness, restarts and OOM kills.
use vstd::prelude::*;

use crate::model::{
    clone_opt, opt_text, opt_view, text_or_empty, ConditionInfo, ContainerInfo,
    ContainerStateInfo, ContainerStatusInfo, PodInfo,
};
use crate::text::str_eq;
use crate::types::{ContainerStatusSummary, PodConditionSummary, PodSummary};

verus! {

/// Where one container summary of a pod comes from: a runtime status, or a
/// container of the spec that has none yet.
pub enum ContainerSource {
    Runtime(ContainerStatusInfo),
    NotStarted(ContainerInfo),
}

/// The containers of a pod's spec, none without a spec.
pub open spec fn spec_containers(pod: PodInfo) -> Seq<ContainerInfo> {
    match pod.spec {
        Some(s) => s.containers@,
        None => Seq::empty(),
    }
}

/// The runtime container statuses of a pod, none when absent.
pub open spec fn runtime_statuses(pod: PodInfo) -> Seq<ContainerStatusInfo> {
    match pod.status {
        Some(s) => match s.container_statuses {
            Some(l) => l@,
            None => Seq::empty(),
        },
        None => Seq::empty(),
    }
}

/// The first runtime status named `name`, if any.
pub open spec fn status_named(list: Seq<ContainerStatusInfo>, name: Seq<char>) -> Option<
    ContainerStatusInfo,
>
    decreases list.len(),
{
    if list.len() == 0 {
        None
    } else if list[0].name@ == name {
        Some(list[0])
    } else {
        status_named(list.drop_first(), name)
    }
}

/// The runtime statuses whose name is not yet among `seen`, each name once,
/// in order.
pub open spec fn unlisted_statuses(rt: Seq<ContainerStatusInfo>, seen: Seq<Seq<char>>) -> Seq<
    ContainerSource,
>
    decreases rt.len(),
{
    if rt.len() == 0 {
        Seq::empty()
    } else if seen.contains(rt[0].name@) {
        unlisted_statuses(rt.drop_first(), seen)
    } else {
        seq![ContainerSource::Runtime(rt[0])] + unlisted_statuses(
            rt.drop_first(),
            seen.push(rt[0].name@),
        )
    }
}

/// The source of the summary of spec container `c`: its runtime status by
/// name, or the container itself when it has not started.
pub open spec fn spec_container_source(rt: Seq<ContainerStatusInfo>, c: ContainerInfo) -> ContainerSource {
    match status_named(rt, c.name@) {
        Some(cs) => ContainerSource::Runtime(cs),
        None => ContainerSource::NotStarted(c),
    }
}

/// The sources of a pod's container summaries: one per spec container, in
/// order, then every runtime status whose name is not listed yet.
pub open spec fn container_sources(pod: PodInfo) -> Seq<ContainerSource> {
    let cs = spec_containers(pod);
    let rt = runtime_statuses(pod);
    Seq::new(cs.len(), |i: int| spec_container_source(rt, cs[i])) + unlisted_statuses(
        rt,
        cs.map_values(|c: ContainerInfo| c.name@),
    )
}

/// The state word and its detail for a container state: when it started
/// running, why it waits, why it terminated; `"unknown"` otherwise.
pub open spec fn state_info(st: Option<ContainerStateInfo>) -> (Seq<char>, Option<Seq<char>>) {
    match st {
        Some(s) => match s.running {
            Some(r) => ("running"@, opt_view(r.started_at)),
            None => match s.waiting {
                Some(w) => ("waiting"@, opt_view(w.reason)),
                None => match s.terminated {
                    Some(t) => ("terminated"@, opt_view(t.reason)),
                    None => ("unknown"@, None),
                },
            },
        },
        None => ("unknown"@, None),
    }
}

/// A state that terminated because the container ran out of memory.
pub open spec fn is_oom_state(st: Option<ContainerStateInfo>) -> bool {
    match st {
        Some(s) => match s.terminated {
            Some(t) => opt_view(t.reason) == Some("OOMKilled"@),
            None => false,
        },
        None => false,
    }
}

/// The container was OOM-killed, now or in its last run.
pub open spec fn was_oom_killed(cs: ContainerStatusInfo) -> bool {
    is_oom_state(cs.state) || is_oom_state(cs.last_state)
}

/// `out` summarizes source `s`.
pub open spec fn is_container_summary(out: ContainerStatusSummary, s: ContainerSource) -> bool {
    match s {
        ContainerSource::Runtime(cs) => {
            &&& out.name@ == cs.name@
            &&& out.ready == cs.ready
            &&& out.restart_count == cs.restart_count
            &&& (out.state@, opt_view(out.state_reason)) == state_info(cs.state)
            &&& out.image@ == cs.image@
            &&& out.oom_killed == was_oom_killed(cs)
        },
        ContainerSource::NotStarted(c) => {
            &&& out.name@ == c.name@
            &&& !out.ready
            &&& out.restart_count == 0
            &&& out.state@ == "pending"@
            &&& opt_view(out.state_reason) == Some("NotStartedYet"@)
            &&& out.image@ == opt_text(c.image)
            &&& !out.oom_killed
        },
    }
}

/// The restart count a source reports (0 before start).
pub open spec fn source_restarts(s: ContainerSource) -> int {
    match s {
        ContainerSource::Runtime(cs) => cs.restart_count as int,
        ContainerSource::NotStarted(_) => 0,
    }
}

/// The total restart count of a sequence of sources.
pub open spec fn total_restarts(srcs: Seq<ContainerSource>) -> int
    decreases srcs.len(),
{
    if srcs.len() == 0 {
        0
    } else {
        total_restarts(srcs.drop_last()) + source_restarts(srcs.last())
    }
}

/// Whether a source reports a ready container.
pub open spec fn source_ready(s: ContainerSource) -> bool {
    match s {
        ContainerSource::Runtime(cs) => cs.ready,
        ContainerSource::NotStarted(_) => false,
    }
}

/// Whether a source reports an OOM kill.
pub open spec fn source_oom(s: ContainerSource) -> bool {
    match s {
        ContainerSource::Runtime(cs) => was_oom_killed(cs),
        ContainerSource::NotStarted(_) => false,
    }
}

/// The restart counts of a pod's containers add up within `i32` at every step.
pub open spec fn restarts_fit(pod: PodInfo) -> bool {
    forall|k: int|
        0 <= k <= container_sources(pod).len() ==> i32::MIN <= #[trigger] total_restarts(
            container_sources(pod).take(k),
        ) <= i32::MAX
}

/// `out` copies pod condition `c`, its status as a boolean (`"True"`).
pub open spec fn is_pod_condition(out: PodConditionSummary, c: ConditionInfo) -> bool {
    &&& out.condition_type@ == c.type_@
    &&& out.status == (c.status@ == "True"@)
    &&& opt_view(out.reason) == opt_view(c.reason)
    &&& opt_view(out.message) == opt_view(c.message)
}

/// The conditions of a pod, none when absent.
pub open spec fn pod_conditions(pod: PodInfo) -> Seq<ConditionInfo> {
    match pod.status {
        Some(s) => match s.conditions {
            Some(c) => c@,
            None => Seq::empty(),
        },
        None => Seq::empty(),
    }
}

/// A pod summary: name, phase (`"Unknown"` when absent), one summary per
/// container source, readiness (some containers, all ready), total restarts,
/// node, start time, conditions and whether any container was OOM-killed.
pub open spec fn is_pod_summary(r: PodSummary, pod: PodInfo) -> bool {
    let srcs = container_sources(pod);
    &&& r.name@ == opt_text(pod.metadata.name)
    &&& r.phase@ == match pod.status {
        Some(s) => match s.phase {
            Some(p) => p@,
            None => "Unknown"@,
        },
        None => "Unknown"@,
    }
    &&& r.container_statuses@.len() == srcs.len()
    &&& forall|i: int|
        0 <= i < srcs.len() ==> is_container_summary(#[trigger] r.container_statuses@[i], srcs[i])
    &&& r.ready == (srcs.len() > 0 && forall|i: int| 0 <= i < srcs.len() ==> source_ready(
        #[trigger] srcs[i],
    ))
    &&& r.restart_count == total_restarts(srcs)
    &&& r.oom_killed == exists|i: int| 0 <= i < srcs.len() && source_oom(#[trigger] srcs[i])
    &&& opt_view(r.node) == match pod.spec {
        Some(s) => opt_view(s.node_name),
        None => None,
    }
    &&& opt_view(r.started_at) == match pod.status {
        Some(s) => opt_view(s.start_time),
        None => None,
    }
    &&& r.conditions@.len() == pod_conditions(pod).len()
    &&& forall|i: int|
        0 <= i < r.conditions@.len() ==> is_pod_condition(
            #[trigger] r.conditions@[i],
            pod_conditions(pod)[i],
        )
}

fn state_summary(st: &Option<ContainerStateInfo>) -> (r: (String, Option<String>))
    ensures
        (r.0@, opt_view(r.1)) == state_info(*st),
{
    match st {
        Some(state) => {
            if let Some(running) = &state.running {
                (String::from_str("running"), clone_opt(&running.started_at))
            } else if let Some(waiting) = &state.waiting {
                (String::from_str("waiting"), clone_opt(&waiting.reason))
            } else if let Some(terminated) = &state.terminated {
                (String::from_str("terminated"), clone_opt(&terminated.reason))
            } else {
                (String::from_str("unknown"), None)
            }
        },
        None => (String::from_str("unknown"), None),
    }
}

fn oom_state(st: &Option<ContainerStateInfo>) -> (r: bool)
    ensures
        r == is_oom_state(*st),
{
    match st {
        Some(s) => match &s.terminated {
            Some(t) => match &t.reason {
                Some(reason) => str_eq(reason.as_str(), "OOMKilled"),
                None => false,
            },
            None => false,
        },
        None => false,
    }
}

/// The state word and detail of a container's current state.
pub fn container_state_info(cs: &ContainerStatusInfo) -> (r: (String, Option<String>))
    ensures
        (r.0@, opt_view(r.1)) == state_info(cs.state),
{
    state_summary(&cs.state)
}

/// Whether a container was OOM-killed, now or in its last run.
pub fn container_oom_killed(cs: &ContainerStatusInfo) -> (r: bool)
    ensures
        r == was_oom_killed(*cs),
{
    oom_state(&cs.state) || oom_state(&cs.last_state)
}

fn runtime_summary(cs: &ContainerStatusInfo) -> (r: ContainerStatusSummary)
    ensures
        is_container_summary(r, ContainerSource::Runtime(*cs)),
{
    let (state, state_reason) = container_state_info(cs);
    ContainerStatusSummary {
        name: cs.name.clone(),
        ready: cs.ready,
        restart_count: cs.restart_count,
        state,
        state_reason,
        image: cs.image.clone(),
        oom_killed: container_oom_killed(cs),
    }
}

fn find_status<'a>(list: &'a Vec<ContainerStatusInfo>, name: &String) -> (r: Option<
    &'a ContainerStatusInfo,
>)
    ensures
        match r {
            Some(cs) => status_named(list@, name@) == Some(*cs),
            None => status_named(list@, name@) is None,
        },
{
    let n = list.len();
    let mut i: usize = 0;
    proof {
        assert(list@.skip(0) =~= list@);
    }
    while i < n
        invariant
            n == list@.len(),
            i <= n,
            status_named(list@, name@) == status_named(list@.skip(i as int), name@),
        decreases n - i,
    {
        proof {
            assert(list@.skip(i as int).drop_first() =~= list@.skip(i + 1));
            assert(list@.skip(i as int)[0] == list@[i as int]);
        }
        if list[i].name == *name {
            return Some(&list[i]);
        }
        i = i + 1;
    }
    None
}

fn has_summary_named(out: &Vec<ContainerStatusSummary>, name: &String) -> (r: bool)
    ensures
        r == exists|k: int| 0 <= k < out@.len() && (#[trigger] out@[k]).name@ == name@,
{
    let n = out.len();
    for k in 0..n
        invariant
            n == out@.len(),
            forall|j: int| 0 <= j < k ==> (#[trigger] out@[j]).name@ != name@,
    {
        if out[k].name == *name {
            return true;
        }
    }
    false
}

/// The summaries of a pod's containers, in source order.
fn container_summaries(pod: &PodInfo) -> (r: Vec<ContainerStatusSummary>)
    ensures
        r@.len() == container_sources(*pod).len(),
        forall|i: int|
            0 <= i < r@.len() ==> is_container_summary(
                #[trigger] r@[i],
                container_sources(*pod)[i],
            ),
{
    let ghost srcs = container_sources(*pod);
    let ghost cs = spec_containers(*pod);
    let ghost rt = runtime_statuses(*pod);
    let ghost names = cs.map_values(|c: ContainerInfo| c.name@);
    let ghost head = Seq::new(cs.len(), |i: int| spec_container_source(rt, cs[i]));
    let mut out: Vec<ContainerStatusSummary> = Vec::new();
    let runtime = match &pod.status {
        Some(s) => match &s.container_statuses {
            Some(l) => Some(l),
            None => None,
        },
        None => None,
    };
    if let Some(spec) = &pod.spec {
        let n = spec.containers.len();
        for i in 0..n
            invariant
                n == cs.len(),
                cs == spec.containers@,
                head == Seq::new(cs.len(), |i: int| spec_container_source(rt, cs[i])),
                match runtime {
                    Some(l) => l@ == rt,
                    None => rt == Seq::<ContainerStatusInfo>::empty(),
                },
                out@.len() == i,
                forall|j: int| 0 <= j < i ==> is_container_summary(#[trigger] out@[j], head[j]),
        {
            let c = &spec.containers[i];
            let found = match runtime {
                Some(l) => find_status(l, &c.name),
                None => None,
            };
            match found {
                Some(st) => {
                    out.push(runtime_summary(st));
                },
                None => {
                    out.push(
                        ContainerStatusSummary {
                            name: c.name.clone(),
                            ready: false,
                            restart_count: 0,
                            state: String::from_str("pending"),
                            state_reason: Some(String::from_str("NotStartedYet")),
                            image: text_or_empty(&c.image),
                            oom_killed: false,
                        },
                    );
                },
            }
        }
    }
    proof {
        assert forall|j: int| 0 <= j < out@.len() implies (#[trigger] out@[j]).name@ == names[j] by {
            assert(is_container_summary(out@[j], head[j]));
            if let ContainerSource::Runtime(st) = head[j] {
                assert(status_named(rt, cs[j].name@) == Some(st));
                lemma_status_named_has_name(rt, cs[j].name@);
            }
        }
        assert(out@.len() == names.len());
    }
    if let Some(list) = runtime {
        let m = list.len();
        let ghost mut seen = names;
        let ghost mut done: Seq<ContainerSource> = head;
        proof {
            assert(list@.skip(0) =~= list@);
            assert(srcs == done + unlisted_statuses(list@.skip(0), seen));
        }
        for j in 0..m
            invariant
                m == list@.len(),
                list@ == rt,
                srcs == done + unlisted_statuses(list@.skip(j as int), seen),
                out@.len() == done.len(),
                seen.len() == done.len(),
                forall|k: int| 0 <= k < out@.len() ==> is_container_summary(#[trigger] out@[k], done[k]),
                forall|k: int| 0 <= k < out@.len() ==> (#[trigger] out@[k]).name@ == seen[k],
        {
            let st = &list[j];
            proof {
                assert(list@.skip(j as int).drop_first() =~= list@.skip(j + 1));
                assert(list@.skip(j as int)[0] == list@[j as int]);
            }
            let present = has_summary_named(&out, &st.name);
            proof {
                if present {
                    let k = choose|k: int| 0 <= k < out@.len() && (#[trigger] out@[k]).name@ == st.name@;
                    assert(seen[k] == st.name@);
                    assert(seen.contains(st.name@));
                } else {
                    assert forall|k: int| 0 <= k < seen.len() implies seen[k] != st.name@ by {
                        assert(out@[k].name@ == seen[k]);
                    }
                    assert(!seen.contains(st.name@));
                }
            }
            if !present {
                out.push(runtime_summary(st));
                proof {
                    let old_done = done;
                    done = done.push(ContainerSource::Runtime(*st));
                    let old_seen = seen;
                    seen = seen.push(st.name@);
                    assert(srcs == done + unlisted_statuses(list@.skip(j + 1), seen)) by {
                        assert(old_done + (seq![ContainerSource::Runtime(*st)] + unlisted_statuses(list@.skip(j + 1), seen))
                            =~= done + unlisted_statuses(list@.skip(j + 1), seen));
                    }
                }
            }
        }
        proof {
            assert(list@.skip(m as int) =~= Seq::<ContainerStatusInfo>::empty());
            assert(srcs =~= done);
        }
    } else {
        proof {
            assert(srcs =~= head);
        }
    }
    out
}

proof fn lemma_status_named_has_name(list: Seq<ContainerStatusInfo>, name: Seq<char>)
    requires
        status_named(list, name) is Some,
    ensures
        status_named(list, name)->0.name@ == name,
    decreases list.len(),
{
    if list.len() > 0 && list[0].name@ != name {
        lemma_status_named_has_name(list.drop_first(), name);
    }
}

fn pod_conditions_of(pod: &PodInfo) -> (r: Vec<PodConditionSummary>)
    ensures
        r@.len() == pod_conditions(*pod).len(),
        forall|i: int|
            0 <= i < r@.len() ==> is_pod_condition(#[trigger] r@[i], pod_conditions(*pod)[i]),
{
    let mut r: Vec<PodConditionSummary> = Vec::new();
    if let Some(s) = &pod.status {
        if let Some(conds) = &s.conditions {
            let n = conds.len();
            for i in 0..n
                invariant
                    n == conds@.len(),
                    conds@ == pod_conditions(*pod),
                    r@.len() == i,
                    forall|j: int| 0 <= j < i ==> is_pod_condition(#[trigger] r@[j], conds@[j]),
            {
                let c = &conds[i];
                r.push(
                    PodConditionSummary {
                        condition_type: c.type_.clone(),
                        status: str_eq(c.status.as_str(), "True"),
                        reason: clone_opt(&c.reason),
                        message: clone_opt(&c.message),
                    },
                );
            }
        }
    }
    r
}

/// Whether the restart counts of `pod`'s containers add up within `i32` at
/// every step, which `pod_summary` needs.
pub fn restarts_in_range(pod: &PodInfo) -> (r: bool)
    ensures
        r == restarts_fit(*pod),
{
    let ghost srcs = container_sources(*pod);
    let container_statuses = container_summaries(pod);
    let n = container_statuses.len();
    let mut total: i64 = 0;
    proof {
        assert(srcs.take(0) =~= Seq::<ContainerSource>::empty());
    }
    for i in 0..n
        invariant
            n == srcs.len(),
            container_statuses@.len() == n,
            forall|k: int| 0 <= k < n ==> is_container_summary(#[trigger] container_statuses@[k], srcs[k]),
            srcs == container_sources(*pod),
            total == total_restarts(srcs.take(i as int)),
            forall|k: int|
                0 <= k <= i ==> i32::MIN <= #[trigger] total_restarts(srcs.take(k)) <= i32::MAX,
    {
        proof {
            assert(is_container_summary(container_statuses@[i as int], srcs[i as int]));
            assert(srcs.take(i + 1).drop_last() =~= srcs.take(i as int));
        }
        total = total + container_statuses[i].restart_count as i64;
        proof {
            assert(container_statuses@[i as int].restart_count == source_restarts(srcs[i as int]));
            assert(total == total_restarts(srcs.take(i + 1)));
        }
        if total < i32::MIN as i64 || total > i32::MAX as i64 {
            proof {
                let k = i + 1;
                assert(!(i32::MIN <= total_restarts(container_sources(*pod).take(k)) <= i32::MAX));
            }
            return false;
        }
    }
    proof {
        assert(srcs.take(n as int) =~= srcs);
    }
    true
}

/// A pod at a glance.
pub fn pod_summary(pod: &PodInfo) -> (r: PodSummary)
    requires
        restarts_fit(*pod),
    ensures
        is_pod_summary(r, *pod),
{
    let ghost srcs = container_sources(*pod);
    let container_statuses = container_summaries(pod);
    let n = container_statuses.len();
    let mut ready = n > 0;
    let mut restart_count: i32 = 0;
    let mut oom_killed = false;
    proof {
        assert(srcs.take(0) =~= Seq::<ContainerSource>::empty());
    }
    for i in 0..n
        invariant
            n == srcs.len(),
            container_statuses@.len() == n,
            forall|k: int| 0 <= k < n ==> is_container_summary(#[trigger] container_statuses@[k], srcs[k]),
            restarts_fit(*pod),
            srcs == container_sources(*pod),
            ready == (n > 0 && forall|k: int| 0 <= k < i ==> source_ready(#[trigger] srcs[k])),
            restart_count == total_restarts(srcs.take(i as int)),
            oom_killed == exists|k: int| 0 <= k < i && source_oom(#[trigger] srcs[k]),
    {
        let c = &container_statuses[i];
        proof {
            assert(is_container_summary(container_statuses@[i as int], srcs[i as int]));
            assert(srcs.take(i + 1).drop_last() =~= srcs.take(i as int));
            assert(total_restarts(srcs.take(i + 1)) == total_restarts(srcs.take(i as int))
                + source_restarts(srcs[i as int]));
            assert(i32::MIN <= total_restarts(srcs.take(i + 1)) <= i32::MAX);
            assert(c.ready == source_ready(srcs[i as int]));
            assert(c.oom_killed == source_oom(srcs[i as int]));
        }
        ready = ready && c.ready;
        restart_count = restart_count + c.restart_count;
        oom_killed = oom_killed || c.oom_killed;
    }
    proof {
        assert(srcs.take(n as int) =~= srcs);
    }
    let status = &pod.status;
    PodSummary {
        name: text_or_empty(&pod.metadata.name),
        phase: match status {
            Some(s) => match &s.phase {
                Some(p) => p.clone(),
                None => String::from_str("Unknown"),
            },
            None => String::from_str("Unknown"),
        },
        ready,
        restart_count,
        node: match &pod.spec {
            Some(s) => clone_opt(&s.node_name),
            None => None,
        },
        started_at: match status {
            Some(s) => clone_opt(&s.start_time),
            None => None,
        },
        conditions: pod_conditions_of(pod),
        container_statuses,
        oom_killed,
    }
}

/// A container counts as OOM-killed exactly when its current state or its
/// last state is terminated with reason `OOMKilled`: a container that was
/// OOM-killed and has restarted still counts.
pub proof fn lemma_oom_in_current_or_last_run(cs: ContainerStatusInfo)
    ensures
        was_oom_killed(cs) <==> (cs.state matches Some(s) && s.terminated matches Some(t)
            && t.reason matches Some(x) && x@ == "OOMKilled"@) || (cs.last_state matches Some(s)
            && s.terminated matches Some(t) && t.reason matches Some(x) && x@ == "OOMKilled"@),
{
}

/// A pod summary reports a container OOM-killed in its last run, both on
/// that container's line and for the pod, whatever its current state.
pub proof fn lemma_pod_reports_oom_in_last_run(r: PodSummary, pod: PodInfo, i: int)
    requires
        is_pod_summary(r, pod),
        0 <= i < container_sources(pod).len(),
        container_sources(pod)[i] matches ContainerSource::Runtime(cs) && cs.last_state matches Some(
            s,
        ) && s.terminated matches Some(t) && t.reason matches Some(x) && x@ == "OOMKilled"@,
    ensures
        r.container_statuses@[i].oom_killed,
        r.oom_killed,
{
    let srcs = container_sources(pod);
    assert(is_container_summary(r.container_statuses@[i], srcs[i]));
    assert(source_oom(srcs[i]));
}

} // verus!
