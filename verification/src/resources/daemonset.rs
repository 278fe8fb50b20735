//! Daemon sets: summaries and details.
use std::collections::BTreeMap;

use vstd::prelude::*;

use crate::model::{
    clone_opt, map_or_empty, opt_map, opt_text, opt_view, text_or_empty, ConditionInfo,
    ContainerInfo, ObjectMetaInfo,
};

verus! {

/// A toleration of a pod template.
#[derive(Clone, Debug, Default)]
pub struct TolerationInfo {
    pub key: Option<String>,
    pub operator: Option<String>,
    pub value: Option<String>,
    pub effect: Option<String>,
    pub toleration_seconds: Option<i64>,
}

/// The spec of a daemon set: its pod template and update strategy.
#[derive(Clone, Debug, Default)]
pub struct DaemonSetSpecInfo {
    /// The template's containers; `None` when the template has no pod spec.
    pub containers: Option<Vec<ContainerInfo>>,
    pub node_selector: Option<BTreeMap<String, String>>,
    pub tolerations: Option<Vec<TolerationInfo>>,
    pub update_strategy_type: Option<String>,
}

/// The status of a daemon set.
#[derive(Clone, Debug, Default)]
pub struct DaemonSetStatusInfo {
    pub desired_number_scheduled: i32,
    pub current_number_scheduled: i32,
    pub number_ready: i32,
    pub number_available: Option<i32>,
    pub conditions: Option<Vec<ConditionInfo>>,
}

/// A daemon set.
#[derive(Clone, Debug, Default)]
pub struct DaemonSetInfo {
    pub metadata: ObjectMetaInfo,
    pub spec: Option<DaemonSetSpecInfo>,
    pub status: Option<DaemonSetStatusInfo>,
}

/// A daemon set at a glance.
#[derive(Clone, Debug)]
pub struct DaemonSetSummary {
    pub name: String,
    pub namespace: String,
    pub image: String,
    pub desired_number_scheduled: i32,
    pub current_number_scheduled: i32,
    pub number_ready: i32,
    pub number_available: i32,
    pub created_at: Option<String>,
    pub labels: BTreeMap<String, String>,
}

/// A condition of a daemon set.
#[derive(Clone, Debug)]
pub struct DaemonSetConditionSummary {
    pub condition_type: String,
    pub status: String,
    pub reason: Option<String>,
    pub message: Option<String>,
    pub last_transition: Option<String>,
}

/// A toleration of a daemon set's pods.
#[derive(Clone, Debug)]
pub struct TolerationSummary {
    pub key: Option<String>,
    pub operator: Option<String>,
    pub value: Option<String>,
    pub effect: Option<String>,
    pub toleration_seconds: Option<i64>,
}

/// A daemon set in detail.
#[derive(Clone, Debug)]
pub struct DaemonSetDetail {
    pub name: String,
    pub namespace: String,
    pub image: String,
    pub desired_number_scheduled: i32,
    pub current_number_scheduled: i32,
    pub number_ready: i32,
    pub number_available: i32,
    pub created_at: Option<String>,
    pub labels: BTreeMap<String, String>,
    pub conditions: Vec<DaemonSetConditionSummary>,
    pub update_strategy: Option<String>,
    pub node_selector: BTreeMap<String, String>,
    pub tolerations: Vec<TolerationSummary>,
    pub annotations: BTreeMap<String, String>,
}

/// The image of the first container of the pod template, empty when there is none.
pub open spec fn image_of(ds: DaemonSetInfo) -> Seq<char> {
    match ds.spec {
        Some(s) => match s.containers {
            Some(cs) => if cs@.len() > 0 {
                opt_text(cs@[0].image)
            } else {
                Seq::empty()
            },
            None => Seq::empty(),
        },
        None => Seq::empty(),
    }
}

/// The four scheduling counts (desired, current, ready, available), 0 without a status.
pub open spec fn counts_of(ds: DaemonSetInfo) -> (i32, i32, i32, i32) {
    match ds.status {
        Some(st) => (
            st.desired_number_scheduled,
            st.current_number_scheduled,
            st.number_ready,
            match st.number_available {
                Some(n) => n,
                None => 0,
            },
        ),
        None => (0, 0, 0, 0),
    }
}

/// `out` summarises daemon set `ds`.
pub open spec fn is_daemonset_summary(out: DaemonSetSummary, ds: DaemonSetInfo) -> bool {
    &&& out.name@ == opt_text(ds.metadata.name)
    &&& out.namespace@ == opt_text(ds.metadata.namespace)
    &&& out.image@ == image_of(ds)
    &&& (out.desired_number_scheduled, out.current_number_scheduled, out.number_ready, out.number_available)
        == counts_of(ds)
    &&& opt_view(out.created_at) == opt_view(ds.metadata.creation_timestamp)
    &&& out.labels@ == opt_map(ds.metadata.labels)
}

/// `out` copies condition `c`.
pub open spec fn is_condition_summary(out: DaemonSetConditionSummary, c: ConditionInfo) -> bool {
    &&& out.condition_type@ == c.type_@
    &&& out.status@ == c.status@
    &&& opt_view(out.reason) == opt_view(c.reason)
    &&& opt_view(out.message) == opt_view(c.message)
    &&& opt_view(out.last_transition) == opt_view(c.last_transition_time)
}

/// `out` copies toleration `t`.
pub open spec fn is_toleration_summary(out: TolerationSummary, t: TolerationInfo) -> bool {
    &&& opt_view(out.key) == opt_view(t.key)
    &&& opt_view(out.operator) == opt_view(t.operator)
    &&& opt_view(out.value) == opt_view(t.value)
    &&& opt_view(out.effect) == opt_view(t.effect)
    &&& out.toleration_seconds == t.toleration_seconds
}

/// The status conditions of a daemon set.
pub open spec fn conditions_of(ds: DaemonSetInfo) -> Seq<ConditionInfo> {
    match ds.status {
        Some(st) => match st.conditions {
            Some(c) => c@,
            None => Seq::empty(),
        },
        None => Seq::empty(),
    }
}

/// The tolerations of a daemon set's pod template.
pub open spec fn tolerations_of(ds: DaemonSetInfo) -> Seq<TolerationInfo> {
    match ds.spec {
        Some(s) => match s.tolerations {
            Some(t) => t@,
            None => Seq::empty(),
        },
        None => Seq::empty(),
    }
}

/// `out` describes daemon set `ds` in detail.
pub open spec fn is_daemonset_detail(out: DaemonSetDetail, ds: DaemonSetInfo) -> bool {
    &&& out.name@ == opt_text(ds.metadata.name)
    &&& out.namespace@ == opt_text(ds.metadata.namespace)
    &&& out.image@ == image_of(ds)
    &&& (out.desired_number_scheduled, out.current_number_scheduled, out.number_ready, out.number_available)
        == counts_of(ds)
    &&& opt_view(out.created_at) == opt_view(ds.metadata.creation_timestamp)
    &&& out.labels@ == opt_map(ds.metadata.labels)
    &&& out.conditions@.len() == conditions_of(ds).len()
    &&& (forall|j: int|
        0 <= j < out.conditions@.len() ==> is_condition_summary(
            #[trigger] out.conditions@[j],
            conditions_of(ds)[j],
        ))
    &&& opt_view(out.update_strategy) == (match ds.spec {
        Some(s) => opt_view(s.update_strategy_type),
        None => None,
    })
    &&& out.node_selector@ == (match ds.spec {
        Some(s) => opt_map(s.node_selector),
        None => Map::empty(),
    })
    &&& out.tolerations@.len() == tolerations_of(ds).len()
    &&& (forall|j: int|
        0 <= j < out.tolerations@.len() ==> is_toleration_summary(
            #[trigger] out.tolerations@[j],
            tolerations_of(ds)[j],
        ))
    &&& out.annotations@ == opt_map(ds.metadata.annotations)
}

fn primary_image(ds: &DaemonSetInfo) -> (r: String)
    ensures
        r@ == image_of(*ds),
{
    match &ds.spec {
        Some(s) => match &s.containers {
            Some(cs) => if cs.len() > 0 {
                text_or_empty(&cs[0].image)
            } else {
                String::new()
            },
            None => String::new(),
        },
        None => String::new(),
    }
}

fn counts(ds: &DaemonSetInfo) -> (r: (i32, i32, i32, i32))
    ensures
        r == counts_of(*ds),
{
    match &ds.status {
        Some(st) => (
            st.desired_number_scheduled,
            st.current_number_scheduled,
            st.number_ready,
            match st.number_available {
                Some(n) => n,
                None => 0,
            },
        ),
        None => (0, 0, 0, 0),
    }
}

/// A daemon set at a glance: image, scheduling counts and labels.
pub fn extract_summary(ds: &DaemonSetInfo) -> (r: DaemonSetSummary)
    ensures
        is_daemonset_summary(r, *ds),
{
    let (desired, current, ready, available) = counts(ds);
    DaemonSetSummary {
        name: text_or_empty(&ds.metadata.name),
        namespace: text_or_empty(&ds.metadata.namespace),
        image: primary_image(ds),
        desired_number_scheduled: desired,
        current_number_scheduled: current,
        number_ready: ready,
        number_available: available,
        created_at: clone_opt(&ds.metadata.creation_timestamp),
        labels: map_or_empty(&ds.metadata.labels),
    }
}

fn condition_summaries(ds: &DaemonSetInfo) -> (out: Vec<DaemonSetConditionSummary>)
    ensures
        out@.len() == conditions_of(*ds).len(),
        forall|j: int|
            0 <= j < out@.len() ==> is_condition_summary(#[trigger] out@[j], conditions_of(*ds)[j]),
{
    let mut out: Vec<DaemonSetConditionSummary> = Vec::new();
    if let Some(st) = &ds.status {
        if let Some(conds) = &st.conditions {
            let n = conds.len();
            for i in 0..n
                invariant
                    n == conds@.len(),
                    conds@ == conditions_of(*ds),
                    out@.len() == i,
                    forall|j: int| 0 <= j < i ==> is_condition_summary(#[trigger] out@[j], conds@[j]),
            {
                let c = &conds[i];
                out.push(
                    DaemonSetConditionSummary {
                        condition_type: c.type_.clone(),
                        status: c.status.clone(),
                        reason: clone_opt(&c.reason),
                        message: clone_opt(&c.message),
                        last_transition: clone_opt(&c.last_transition_time),
                    },
                );
            }
        }
    }
    out
}

fn toleration_summaries(ds: &DaemonSetInfo) -> (out: Vec<TolerationSummary>)
    ensures
        out@.len() == tolerations_of(*ds).len(),
        forall|j: int|
            0 <= j < out@.len() ==> is_toleration_summary(#[trigger] out@[j], tolerations_of(*ds)[j]),
{
    let mut out: Vec<TolerationSummary> = Vec::new();
    if let Some(s) = &ds.spec {
        if let Some(tols) = &s.tolerations {
            let n = tols.len();
            for i in 0..n
                invariant
                    n == tols@.len(),
                    tols@ == tolerations_of(*ds),
                    out@.len() == i,
                    forall|j: int| 0 <= j < i ==> is_toleration_summary(#[trigger] out@[j], tols@[j]),
            {
                let t = &tols[i];
                out.push(
                    TolerationSummary {
                        key: clone_opt(&t.key),
                        operator: clone_opt(&t.operator),
                        value: clone_opt(&t.value),
                        effect: clone_opt(&t.effect),
                        toleration_seconds: t.toleration_seconds,
                    },
                );
            }
        }
    }
    out
}

/// A daemon set in detail: the summary plus conditions, update strategy,
/// node selector, tolerations and annotations.
pub fn extract_detail(ds: &DaemonSetInfo) -> (r: DaemonSetDetail)
    ensures
        is_daemonset_detail(r, *ds),
{
    let (desired, current, ready, available) = counts(ds);
    let (update_strategy, node_selector) = match &ds.spec {
        Some(s) => (clone_opt(&s.update_strategy_type), map_or_empty(&s.node_selector)),
        None => (None, BTreeMap::new()),
    };
    DaemonSetDetail {
        name: text_or_empty(&ds.metadata.name),
        namespace: text_or_empty(&ds.metadata.namespace),
        image: primary_image(ds),
        desired_number_scheduled: desired,
        current_number_scheduled: current,
        number_ready: ready,
        number_available: available,
        created_at: clone_opt(&ds.metadata.creation_timestamp),
        labels: map_or_empty(&ds.metadata.labels),
        conditions: condition_summaries(ds),
        update_strategy,
        node_selector,
        tolerations: toleration_summaries(ds),
        annotations: map_or_empty(&ds.metadata.annotations),
    }
}

} // verus!
