//! Deployment tools: list summaries and timestamps for rolling restarts.
use std::collections::BTreeMap;

use vstd::prelude::*;

pub use crate::calendar::{civil_from_days, utc_now_rfc3339};
use crate::extract::{primary_image, primary_image_of, replica_counts, replica_counts_of};
use crate::model::{clone_opt, map_or_empty, opt_map, opt_text, opt_view, text_or_empty, DeploymentInfo};

verus! {

/// Desired and observed replica counts of a deployment.
#[derive(Clone, Debug)]
pub struct DeploymentReplicaCounts {
    pub desired: i32,
    pub ready: i32,
    pub available: i32,
    pub updated: i32,
}

/// A deployment as the list tool shows it.
#[derive(Clone, Debug)]
pub struct DeploymentSummary {
    pub name: String,
    pub namespace: String,
    pub image: String,
    pub replicas: DeploymentReplicaCounts,
    pub created_at: Option<String>,
    pub labels: BTreeMap<String, String>,
}

/// `out` summarises `dep`: desired replicas default to 1, observed ones to 0.
pub open spec fn is_list_summary(out: DeploymentSummary, dep: DeploymentInfo) -> bool {
    let c = replica_counts_of(dep);
    &&& out.name@ == opt_text(dep.metadata.name)
    &&& out.namespace@ == opt_text(dep.metadata.namespace)
    &&& out.image@ == primary_image_of(dep)
    &&& out.replicas.desired == c.desired
    &&& out.replicas.ready == c.ready
    &&& out.replicas.available == c.available
    &&& out.replicas.updated == c.updated
    &&& opt_view(out.created_at) == opt_view(dep.metadata.creation_timestamp)
    &&& out.labels@ == opt_map(dep.metadata.labels)
}

/// A deployment at a glance: image, replica counts and labels.
pub fn extract_summary(dep: &DeploymentInfo) -> (r: DeploymentSummary)
    ensures
        is_list_summary(r, *dep),
{
    let c = replica_counts(dep);
    DeploymentSummary {
        name: text_or_empty(&dep.metadata.name),
        namespace: text_or_empty(&dep.metadata.namespace),
        image: primary_image(dep),
        replicas: DeploymentReplicaCounts {
            desired: c.desired,
            ready: c.ready,
            available: c.available,
            updated: c.updated,
        },
        created_at: clone_opt(&dep.metadata.creation_timestamp),
        labels: map_or_empty(&dep.metadata.labels),
    }
}

} // verus!
