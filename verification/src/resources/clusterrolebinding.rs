//! Cluster role bindings: summaries and their subjects.
use vstd::prelude::*;

use crate::model::{clone_opt, opt_text, opt_view, text_or_empty, ObjectMetaInfo};

verus! {

/// A subject of a binding: a user, group or service account.
#[derive(Clone, Debug, Default)]
pub struct SubjectInfo {
    pub kind: String,
    pub name: String,
    pub namespace: Option<String>,
}

/// A cluster role binding.
#[derive(Clone, Debug, Default)]
pub struct ClusterRoleBindingInfo {
    pub metadata: ObjectMetaInfo,
    pub role_ref_kind: String,
    pub role_ref_name: String,
    pub subjects: Option<Vec<SubjectInfo>>,
}

/// A cluster role binding at a glance.
#[derive(Clone, Debug)]
pub struct ClusterRoleBindingSummary {
    pub name: String,
    pub role_ref_kind: String,
    pub role_ref_name: String,
    pub subjects_count: usize,
    pub created_at: Option<String>,
}

/// A subject of a binding.
#[derive(Clone, Debug)]
pub struct SubjectSummary {
    pub kind: String,
    pub name: String,
    pub namespace: Option<String>,
}

/// The subjects of a binding.
pub open spec fn subjects_of(crb: ClusterRoleBindingInfo) -> Seq<SubjectInfo> {
    match crb.subjects {
        Some(s) => s@,
        None => Seq::empty(),
    }
}

/// `out` summarises `crb`.
pub open spec fn is_binding_summary(out: ClusterRoleBindingSummary, crb: ClusterRoleBindingInfo) -> bool {
    &&& out.name@ == opt_text(crb.metadata.name)
    &&& out.role_ref_kind@ == crb.role_ref_kind@
    &&& out.role_ref_name@ == crb.role_ref_name@
    &&& out.subjects_count == subjects_of(crb).len()
    &&& opt_view(out.created_at) == opt_view(crb.metadata.creation_timestamp)
}

/// `out` copies subject `s`.
pub open spec fn is_subject_summary(out: SubjectSummary, s: SubjectInfo) -> bool {
    out.kind@ == s.kind@ && out.name@ == s.name@ && opt_view(out.namespace) == opt_view(s.namespace)
}

/// A cluster role binding at a glance: the role it grants and how many subjects.
pub fn extract_summary(crb: &ClusterRoleBindingInfo) -> (r: ClusterRoleBindingSummary)
    ensures
        is_binding_summary(r, *crb),
{
    let subjects_count = match &crb.subjects {
        Some(s) => s.len(),
        None => 0,
    };
    ClusterRoleBindingSummary {
        name: text_or_empty(&crb.metadata.name),
        role_ref_kind: crb.role_ref_kind.clone(),
        role_ref_name: crb.role_ref_name.clone(),
        subjects_count,
        created_at: clone_opt(&crb.metadata.creation_timestamp),
    }
}

/// The subjects of a binding, in order.
pub fn extract_subjects(crb: &ClusterRoleBindingInfo) -> (out: Vec<SubjectSummary>)
    ensures
        out@.len() == subjects_of(*crb).len(),
        forall|j: int| 0 <= j < out@.len() ==> is_subject_summary(#[trigger] out@[j], subjects_of(*crb)[j]),
{
    let mut out: Vec<SubjectSummary> = Vec::new();
    if let Some(subjects) = &crb.subjects {
        let n = subjects.len();
        for i in 0..n
            invariant
                n == subjects@.len(),
                subjects@ == subjects_of(*crb),
                out@.len() == i,
                forall|j: int| 0 <= j < i ==> is_subject_summary(#[trigger] out@[j], subjects@[j]),
        {
            let s = &subjects[i];
            out.push(SubjectSummary { kind: s.kind.clone(), name: s.name.clone(), namespace: clone_opt(&s.namespace) });
        }
    }
    out
}

} // verus!
