//! Cluster trust bundles: summaries.
use vstd::prelude::*;

use crate::model::{clone_opt, opt_text, opt_view, text_or_empty, ObjectMetaInfo};

verus! {

/// A cluster trust bundle.
#[derive(Clone, Debug, Default)]
pub struct ClusterTrustBundleInfo {
    pub metadata: ObjectMetaInfo,
    pub signer_name: Option<String>,
}

/// A cluster trust bundle at a glance.
#[derive(Clone, Debug)]
pub struct ClusterTrustBundleSummary {
    pub name: String,
    pub signer_name: Option<String>,
    pub created_at: Option<String>,
}

/// `out` summarises `ctb`.
pub open spec fn is_bundle_summary(out: ClusterTrustBundleSummary, ctb: ClusterTrustBundleInfo) -> bool {
    &&& out.name@ == opt_text(ctb.metadata.name)
    &&& opt_view(out.signer_name) == opt_view(ctb.signer_name)
    &&& opt_view(out.created_at) == opt_view(ctb.metadata.creation_timestamp)
}

/// A cluster trust bundle at a glance.
pub fn extract_summary(ctb: &ClusterTrustBundleInfo) -> (r: ClusterTrustBundleSummary)
    ensures
        is_bundle_summary(r, *ctb),
{
    ClusterTrustBundleSummary {
        name: text_or_empty(&ctb.metadata.name),
        signer_name: clone_opt(&ctb.signer_name),
        created_at: clone_opt(&ctb.metadata.creation_timestamp),
    }
}

} // verus!
