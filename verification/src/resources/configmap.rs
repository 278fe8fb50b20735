//! Config maps: summaries listing their data keys.
use std::collections::BTreeMap;

use vstd::prelude::*;

use crate::maps::{keys_in_order, map_keys};
use crate::model::{clone_opt, map_or_empty, opt_map, opt_text, opt_view, text_or_empty, ObjectMetaInfo};

verus! {

/// A config map.
#[derive(Clone, Debug, Default)]
pub struct ConfigMapInfo {
    pub metadata: ObjectMetaInfo,
    pub data: Option<BTreeMap<String, String>>,
}

/// A config map at a glance: the keys of its data, not the values.
#[derive(Clone, Debug)]
pub struct ConfigMapSummary {
    pub name: String,
    pub namespace: String,
    pub data_keys: Vec<String>,
    pub created_at: Option<String>,
    pub labels: BTreeMap<String, String>,
}

/// `out` summarises `cm`: its data keys come in ascending order.
pub open spec fn is_configmap_summary(out: ConfigMapSummary, cm: ConfigMapInfo) -> bool {
    &&& out.name@ == opt_text(cm.metadata.name)
    &&& out.namespace@ == opt_text(cm.metadata.namespace)
    &&& keys_in_order(out.data_keys@, opt_map(cm.data))
    &&& opt_view(out.created_at) == opt_view(cm.metadata.creation_timestamp)
    &&& out.labels@ == opt_map(cm.metadata.labels)
}

/// A config map at a glance.
pub fn extract_summary(cm: &ConfigMapInfo) -> (r: ConfigMapSummary)
    ensures
        is_configmap_summary(r, *cm),
{
    let data_keys = match &cm.data {
        Some(d) => map_keys(d),
        None => Vec::new(),
    };
    ConfigMapSummary {
        name: text_or_empty(&cm.metadata.name),
        namespace: text_or_empty(&cm.metadata.namespace),
        data_keys,
        created_at: clone_opt(&cm.metadata.creation_timestamp),
        labels: map_or_empty(&cm.metadata.labels),
    }
}

} // verus!
