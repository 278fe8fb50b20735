//! Namespaces: details.
use std::collections::BTreeMap;

use vstd::prelude::*;

use crate::model::{
    clone_opt, map_or_empty, opt_map, opt_text, opt_texts, opt_view, strings_or_empty,
    text_or_empty, texts, ObjectMetaInfo,
};

verus! {

/// A namespace; `phase` is that of its status, absent without one.
#[derive(Clone, Debug, Default)]
pub struct NamespaceInfo {
    pub metadata: ObjectMetaInfo,
    pub phase: Option<String>,
}

/// A namespace in detail.
#[derive(Clone, Debug)]
pub struct NamespaceDetail {
    pub name: String,
    pub status: String,
    pub labels: BTreeMap<String, String>,
    pub annotations: BTreeMap<String, String>,
    pub created_at: Option<String>,
    pub finalizers: Vec<String>,
}

/// `out` describes `ns`; a namespace without a phase is `Unknown`.
pub open spec fn is_namespace_detail(out: NamespaceDetail, ns: NamespaceInfo) -> bool {
    &&& out.name@ == opt_text(ns.metadata.name)
    &&& out.status@ == (match ns.phase {
        Some(p) => p@,
        None => "Unknown"@,
    })
    &&& out.labels@ == opt_map(ns.metadata.labels)
    &&& out.annotations@ == opt_map(ns.metadata.annotations)
    &&& opt_view(out.created_at) == opt_view(ns.metadata.creation_timestamp)
    &&& texts(out.finalizers@) == opt_texts(ns.metadata.finalizers)
}

/// A namespace in detail: phase, labels, annotations and finalizers.
pub fn extract_detail(ns: &NamespaceInfo) -> (r: NamespaceDetail)
    ensures
        is_namespace_detail(r, *ns),
{
    let status = match &ns.phase {
        Some(p) => p.clone(),
        None => String::from_str("Unknown"),
    };
    proof {
        reveal_strlit("Unknown");
    }
    NamespaceDetail {
        name: text_or_empty(&ns.metadata.name),
        status,
        labels: map_or_empty(&ns.metadata.labels),
        annotations: map_or_empty(&ns.metadata.annotations),
        created_at: clone_opt(&ns.metadata.creation_timestamp),
        finalizers: strings_or_empty(&ns.metadata.finalizers),
    }
}

} // verus!
