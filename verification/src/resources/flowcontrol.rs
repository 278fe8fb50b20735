//! API priority and fairness: flow schemas and priority levels.
use vstd::prelude::*;

use crate::model::{clone_opt, opt_text, opt_view, text_or_empty, ObjectMetaInfo};

verus! {

/// The spec of a flow schema.
#[derive(Clone, Debug, Default)]
pub struct FlowSchemaSpecInfo {
    pub priority_level_name: String,
    pub matching_precedence: Option<i32>,
}

/// A flow schema.
#[derive(Clone, Debug, Default)]
pub struct FlowSchemaInfo {
    pub metadata: ObjectMetaInfo,
    pub spec: Option<FlowSchemaSpecInfo>,
}

/// The spec of a priority level; `nominal_concurrency_shares` is that of
/// its `limited` part, absent when there is none.
#[derive(Clone, Debug, Default)]
pub struct PriorityLevelSpecInfo {
    pub type_: String,
    pub nominal_concurrency_shares: Option<i32>,
}

/// A priority level configuration.
#[derive(Clone, Debug, Default)]
pub struct PriorityLevelInfo {
    pub metadata: ObjectMetaInfo,
    pub spec: Option<PriorityLevelSpecInfo>,
}

/// A flow schema at a glance.
#[derive(Clone, Debug)]
pub struct FlowSchemaSummary {
    pub name: String,
    pub priority_level_name: String,
    pub matching_precedence: Option<i32>,
    pub created_at: Option<String>,
}

/// A priority level at a glance.
#[derive(Clone, Debug)]
pub struct PriorityLevelSummary {
    pub name: String,
    pub type_: String,
    pub assured_concurrency_shares: Option<i32>,
    pub created_at: Option<String>,
}

/// `out` summarises flow schema `fs`.
pub open spec fn is_flowschema_summary(out: FlowSchemaSummary, fs: FlowSchemaInfo) -> bool {
    &&& out.name@ == opt_text(fs.metadata.name)
    &&& out.priority_level_name@ == (match fs.spec {
        Some(s) => s.priority_level_name@,
        None => Seq::empty(),
    })
    &&& out.matching_precedence == (match fs.spec {
        Some(s) => s.matching_precedence,
        None => None,
    })
    &&& opt_view(out.created_at) == opt_view(fs.metadata.creation_timestamp)
}

/// `out` summarises priority level `plc`.
pub open spec fn is_prioritylevel_summary(out: PriorityLevelSummary, plc: PriorityLevelInfo) -> bool {
    &&& out.name@ == opt_text(plc.metadata.name)
    &&& out.type_@ == (match plc.spec {
        Some(s) => s.type_@,
        None => Seq::empty(),
    })
    &&& out.assured_concurrency_shares == (match plc.spec {
        Some(s) => s.nominal_concurrency_shares,
        None => None,
    })
    &&& opt_view(out.created_at) == opt_view(plc.metadata.creation_timestamp)
}

/// A flow schema at a glance: the priority level it feeds and its precedence.
pub fn extract_flowschema_summary(fs: &FlowSchemaInfo) -> (r: FlowSchemaSummary)
    ensures
        is_flowschema_summary(r, *fs),
{
    let (priority_level_name, matching_precedence) = match &fs.spec {
        Some(s) => (s.priority_level_name.clone(), s.matching_precedence),
        None => (String::new(), None),
    };
    FlowSchemaSummary {
        name: text_or_empty(&fs.metadata.name),
        priority_level_name,
        matching_precedence,
        created_at: clone_opt(&fs.metadata.creation_timestamp),
    }
}

/// A priority level at a glance: its type and concurrency shares.
pub fn extract_prioritylevel_summary(plc: &PriorityLevelInfo) -> (r: PriorityLevelSummary)
    ensures
        is_prioritylevel_summary(r, *plc),
{
    let (type_, shares) = match &plc.spec {
        Some(s) => (s.type_.clone(), s.nominal_concurrency_shares),
        None => (String::new(), None),
    };
    PriorityLevelSummary {
        name: text_or_empty(&plc.metadata.name),
        type_,
        assured_concurrency_shares: shares,
        created_at: clone_opt(&plc.metadata.creation_timestamp),
    }
}

} // verus!
