//! Horizontal pod autoscalers: summaries and details.
use vstd::prelude::*;

use std::collections::BTreeMap;

use crate::model::{clone_opt, map_or_empty, opt_map, opt_text, opt_view, text_or_empty, ConditionInfo, ObjectMetaInfo};

verus! {

/// The spec of an autoscaler: what it scales and within which bounds.
#[derive(Clone, Debug, Default)]
pub struct HpaSpecInfo {
    pub scale_target_kind: String,
    pub scale_target_name: String,
    pub min_replicas: Option<i32>,
    pub max_replicas: i32,
}

/// The status of an autoscaler.
#[derive(Clone, Debug, Default)]
pub struct HpaStatusInfo {
    pub current_replicas: Option<i32>,
    pub desired_replicas: i32,
    pub conditions: Option<Vec<ConditionInfo>>,
}

/// A horizontal pod autoscaler.
#[derive(Clone, Debug, Default)]
pub struct HpaInfo {
    pub metadata: ObjectMetaInfo,
    pub spec: Option<HpaSpecInfo>,
    pub status: Option<HpaStatusInfo>,
}

/// An autoscaler at a glance.
#[derive(Clone, Debug)]
pub struct HpaSummary {
    pub name: String,
    pub namespace: String,
    pub scale_target_kind: String,
    pub scale_target_name: String,
    pub min_replicas: Option<i32>,
    pub max_replicas: i32,
    pub current_replicas: Option<i32>,
    pub created_at: Option<String>,
}

/// `out` summarises `hpa`: without a spec the target is empty and the maximum 0.
pub open spec fn is_hpa_summary(out: HpaSummary, hpa: HpaInfo) -> bool {
    &&& out.name@ == opt_text(hpa.metadata.name)
    &&& out.namespace@ == opt_text(hpa.metadata.namespace)
    &&& match hpa.spec {
        Some(s) => {
            &&& out.scale_target_kind@ == s.scale_target_kind@
            &&& out.scale_target_name@ == s.scale_target_name@
            &&& out.min_replicas == s.min_replicas
            &&& out.max_replicas == s.max_replicas
        },
        None => {
            &&& out.scale_target_kind@ == Seq::<char>::empty()
            &&& out.scale_target_name@ == Seq::<char>::empty()
            &&& out.min_replicas is None
            &&& out.max_replicas == 0
        },
    }
    &&& out.current_replicas == (match hpa.status {
        Some(st) => st.current_replicas,
        None => None,
    })
    &&& opt_view(out.created_at) == opt_view(hpa.metadata.creation_timestamp)
}

/// An autoscaler at a glance: its target, replica bounds and current replicas.
pub fn extract_summary(hpa: &HpaInfo) -> (r: HpaSummary)
    ensures
        is_hpa_summary(r, *hpa),
{
    let (kind, name, min_replicas, max_replicas) = match &hpa.spec {
        Some(s) => (s.scale_target_kind.clone(), s.scale_target_name.clone(), s.min_replicas, s.max_replicas),
        None => (String::new(), String::new(), None, 0),
    };
    let current_replicas = match &hpa.status {
        Some(st) => st.current_replicas,
        None => None,
    };
    HpaSummary {
        name: text_or_empty(&hpa.metadata.name),
        namespace: text_or_empty(&hpa.metadata.namespace),
        scale_target_kind: kind,
        scale_target_name: name,
        min_replicas,
        max_replicas,
        current_replicas,
        created_at: clone_opt(&hpa.metadata.creation_timestamp),
    }
}

/// One status condition of an autoscaler.
#[derive(Clone, Debug)]
pub struct HpaConditionSummary {
    pub condition_type: String,
    pub status: String,
    pub reason: Option<String>,
    pub message: Option<String>,
    pub last_transition: Option<String>,
}

/// An autoscaler in detail: the summary plus desired replicas, labels,
/// annotations and status conditions. (The metric specs travel as they are.)
#[derive(Clone, Debug)]
pub struct HpaDetail {
    pub name: String,
    pub namespace: String,
    pub scale_target_kind: String,
    pub scale_target_name: String,
    pub min_replicas: Option<i32>,
    pub max_replicas: i32,
    pub current_replicas: Option<i32>,
    pub desired_replicas: Option<i32>,
    pub created_at: Option<String>,
    pub labels: BTreeMap<String, String>,
    pub annotations: BTreeMap<String, String>,
    pub conditions: Vec<HpaConditionSummary>,
}

/// The status conditions of an autoscaler.
pub open spec fn hpa_conditions_of(hpa: HpaInfo) -> Seq<ConditionInfo> {
    match hpa.status {
        Some(st) => match st.conditions {
            Some(c) => c@,
            None => Seq::empty(),
        },
        None => Seq::empty(),
    }
}

/// `out` copies condition `c`.
pub open spec fn is_hpa_condition(out: HpaConditionSummary, c: ConditionInfo) -> bool {
    &&& out.condition_type@ == c.type_@
    &&& out.status@ == c.status@
    &&& opt_view(out.reason) == opt_view(c.reason)
    &&& opt_view(out.message) == opt_view(c.message)
    &&& opt_view(out.last_transition) == opt_view(c.last_transition_time)
}

/// `out` is the detail of `hpa`: its summary fields, the desired replicas
/// when there is a status, labels and annotations (empty when absent), and
/// one summary per status condition, in order.
pub open spec fn is_hpa_detail(out: HpaDetail, hpa: HpaInfo) -> bool {
    &&& is_hpa_summary(
        HpaSummary {
            name: out.name,
            namespace: out.namespace,
            scale_target_kind: out.scale_target_kind,
            scale_target_name: out.scale_target_name,
            min_replicas: out.min_replicas,
            max_replicas: out.max_replicas,
            current_replicas: out.current_replicas,
            created_at: out.created_at,
        },
        hpa,
    )
    &&& out.desired_replicas == (match hpa.status {
        Some(st) => Some(st.desired_replicas),
        None => None,
    })
    &&& out.labels@ == opt_map(hpa.metadata.labels)
    &&& out.annotations@ == opt_map(hpa.metadata.annotations)
    &&& out.conditions@.len() == hpa_conditions_of(hpa).len()
    &&& forall|j: int|
        0 <= j < out.conditions@.len() ==> is_hpa_condition(#[trigger] out.conditions@[j], hpa_conditions_of(hpa)[j])
}

fn hpa_condition_summaries(hpa: &HpaInfo) -> (out: Vec<HpaConditionSummary>)
    ensures
        out@.len() == hpa_conditions_of(*hpa).len(),
        forall|j: int| 0 <= j < out@.len() ==> is_hpa_condition(#[trigger] out@[j], hpa_conditions_of(*hpa)[j]),
{
    let mut out: Vec<HpaConditionSummary> = Vec::new();
    if let Some(st) = &hpa.status {
        if let Some(conds) = &st.conditions {
            let n = conds.len();
            for i in 0..n
                invariant
                    n == conds@.len(),
                    conds@ == hpa_conditions_of(*hpa),
                    out@.len() == i,
                    forall|j: int| 0 <= j < i ==> is_hpa_condition(#[trigger] out@[j], conds@[j]),
            {
                let c = &conds[i];
                out.push(
                    HpaConditionSummary {
                        condition_type: c.type_.clone(),
                        status: c.status.clone(),
                        reason: clone_opt(&c.reason),
                        message: clone_opt(&c.message),
                        last_transition: clone_opt(&c.last_transition_time),
                    },
                );
            }
        }
    }
    out
}

/// An autoscaler in detail.
pub fn extract_detail(hpa: &HpaInfo) -> (r: HpaDetail)
    ensures
        is_hpa_detail(r, *hpa),
{
    let s = extract_summary(hpa);
    let desired_replicas = match &hpa.status {
        Some(st) => Some(st.desired_replicas),
        None => None,
    };
    HpaDetail {
        name: s.name,
        namespace: s.namespace,
        scale_target_kind: s.scale_target_kind,
        scale_target_name: s.scale_target_name,
        min_replicas: s.min_replicas,
        max_replicas: s.max_replicas,
        current_replicas: s.current_replicas,
        desired_replicas,
        created_at: s.created_at,
        labels: map_or_empty(&hpa.metadata.labels),
        annotations: map_or_empty(&hpa.metadata.annotations),
        conditions: hpa_condition_summaries(hpa),
    }
}

} // verus!
