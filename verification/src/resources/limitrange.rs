//! Limit ranges: summaries and their limit items.
use std::collections::BTreeMap;

use vstd::prelude::*;

use crate::model::{clone_opt, map_or_empty, opt_map, opt_text, opt_view, text_or_empty, ObjectMetaInfo};

verus! {

/// One limit of a limit range; quantities are held as their text.
#[derive(Clone, Debug, Default)]
pub struct LimitItemInfo {
    pub type_: String,
    pub max: Option<BTreeMap<String, String>>,
    pub min: Option<BTreeMap<String, String>>,
    pub default: Option<BTreeMap<String, String>>,
    pub default_request: Option<BTreeMap<String, String>>,
}

/// A limit range; `limits` is absent when it has no spec.
#[derive(Clone, Debug, Default)]
pub struct LimitRangeInfo {
    pub metadata: ObjectMetaInfo,
    pub limits: Option<Vec<LimitItemInfo>>,
}

/// A limit range at a glance.
#[derive(Clone, Debug)]
pub struct LimitRangeSummary {
    pub name: String,
    pub namespace: String,
    pub limits_count: usize,
    pub created_at: Option<String>,
}

/// One limit of a limit range.
#[derive(Clone, Debug)]
pub struct LimitItemSummary {
    pub type_: String,
    pub max: BTreeMap<String, String>,
    pub min: BTreeMap<String, String>,
    pub default: BTreeMap<String, String>,
    pub default_request: BTreeMap<String, String>,
}

/// `out` summarises `lr`.
pub open spec fn is_limitrange_summary(out: LimitRangeSummary, lr: LimitRangeInfo) -> bool {
    &&& out.name@ == opt_text(lr.metadata.name)
    &&& out.namespace@ == opt_text(lr.metadata.namespace)
    &&& out.limits_count == (match lr.limits {
        Some(l) => l@.len(),
        None => 0,
    })
    &&& opt_view(out.created_at) == opt_view(lr.metadata.creation_timestamp)
}

/// `out` copies limit `item`; absent quantity maps become empty ones.
pub open spec fn is_limit_item(out: LimitItemSummary, item: LimitItemInfo) -> bool {
    &&& out.type_@ == item.type_@
    &&& out.max@ == opt_map(item.max)
    &&& out.min@ == opt_map(item.min)
    &&& out.default@ == opt_map(item.default)
    &&& out.default_request@ == opt_map(item.default_request)
}

/// A quantity map as plain text, empty when absent.
pub fn quantity_map_to_strings(m: &Option<BTreeMap<String, String>>) -> (r: BTreeMap<String, String>)
    ensures
        r@ == opt_map(*m),
{
    map_or_empty(m)
}

/// A limit range at a glance: how many limits it sets.
pub fn extract_summary(lr: &LimitRangeInfo) -> (r: LimitRangeSummary)
    ensures
        is_limitrange_summary(r, *lr),
{
    let limits_count = match &lr.limits {
        Some(l) => l.len(),
        None => 0,
    };
    LimitRangeSummary {
        name: text_or_empty(&lr.metadata.name),
        namespace: text_or_empty(&lr.metadata.namespace),
        limits_count,
        created_at: clone_opt(&lr.metadata.creation_timestamp),
    }
}

/// One limit of a limit range.
pub fn extract_limit_item(item: &LimitItemInfo) -> (r: LimitItemSummary)
    ensures
        is_limit_item(r, *item),
{
    LimitItemSummary {
        type_: item.type_.clone(),
        max: quantity_map_to_strings(&item.max),
        min: quantity_map_to_strings(&item.min),
        default: quantity_map_to_strings(&item.default),
        default_request: quantity_map_to_strings(&item.default_request),
    }
}

} // verus!
