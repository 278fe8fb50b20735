//! Custom resource definitions: summaries.
use vstd::prelude::*;

use crate::model::{clone_opt, clone_strings, opt_text, opt_view, text_or_empty, texts, ObjectMetaInfo};

verus! {

/// A custom resource definition: its group, kind, scope and the names of its versions.
#[derive(Clone, Debug, Default)]
pub struct CrdInfo {
    pub metadata: ObjectMetaInfo,
    pub group: String,
    pub kind: String,
    pub scope: String,
    pub versions: Vec<String>,
}

/// A custom resource definition at a glance.
#[derive(Clone, Debug)]
pub struct CrdSummary {
    pub name: String,
    pub group: String,
    pub kind: String,
    pub scope: String,
    pub versions: Vec<String>,
    pub created_at: Option<String>,
}

/// `out` summarises `crd`.
pub open spec fn is_crd_summary(out: CrdSummary, crd: CrdInfo) -> bool {
    &&& out.name@ == opt_text(crd.metadata.name)
    &&& out.group@ == crd.group@
    &&& out.kind@ == crd.kind@
    &&& out.scope@ == crd.scope@
    &&& texts(out.versions@) == texts(crd.versions@)
    &&& opt_view(out.created_at) == opt_view(crd.metadata.creation_timestamp)
}

/// A custom resource definition at a glance.
pub fn crd_summary(crd: &CrdInfo) -> (r: CrdSummary)
    ensures
        is_crd_summary(r, *crd),
{
    CrdSummary {
        name: text_or_empty(&crd.metadata.name),
        group: crd.group.clone(),
        kind: crd.kind.clone(),
        scope: crd.scope.clone(),
        versions: clone_strings(&crd.versions),
        created_at: clone_opt(&crd.metadata.creation_timestamp),
    }
}

} // verus!
