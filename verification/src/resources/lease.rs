//! Leases: summaries.
use vstd::prelude::*;

use crate::model::{clone_opt, opt_text, opt_view, text_or_empty, ObjectMetaInfo};

verus! {

/// The spec of a lease.
#[derive(Clone, Debug, Default)]
pub struct LeaseSpecInfo {
    pub holder_identity: Option<String>,
    pub lease_duration_seconds: Option<i32>,
    pub acquire_time: Option<String>,
    pub renew_time: Option<String>,
}

/// A lease.
#[derive(Clone, Debug, Default)]
pub struct LeaseInfo {
    pub metadata: ObjectMetaInfo,
    pub spec: Option<LeaseSpecInfo>,
}

/// A lease at a glance.
#[derive(Clone, Debug)]
pub struct LeaseSummary {
    pub name: String,
    pub namespace: String,
    pub holder_identity: Option<String>,
    pub lease_duration_seconds: Option<i32>,
    pub acquire_time: Option<String>,
    pub renew_time: Option<String>,
    pub created_at: Option<String>,
}

/// `out` summarises `lease`; without a spec its holder and times are absent.
pub open spec fn is_lease_summary(out: LeaseSummary, lease: LeaseInfo) -> bool {
    &&& out.name@ == opt_text(lease.metadata.name)
    &&& out.namespace@ == opt_text(lease.metadata.namespace)
    &&& match lease.spec {
        Some(s) => {
            &&& opt_view(out.holder_identity) == opt_view(s.holder_identity)
            &&& out.lease_duration_seconds == s.lease_duration_seconds
            &&& opt_view(out.acquire_time) == opt_view(s.acquire_time)
            &&& opt_view(out.renew_time) == opt_view(s.renew_time)
        },
        None => {
            &&& out.holder_identity is None
            &&& out.lease_duration_seconds is None
            &&& out.acquire_time is None
            &&& out.renew_time is None
        },
    }
    &&& opt_view(out.created_at) == opt_view(lease.metadata.creation_timestamp)
}

/// A lease at a glance: who holds it, for how long, and when it was taken and renewed.
pub fn extract_summary(lease: &LeaseInfo) -> (r: LeaseSummary)
    ensures
        is_lease_summary(r, *lease),
{
    let (holder_identity, lease_duration_seconds, acquire_time, renew_time) = match &lease.spec {
        Some(s) => (clone_opt(&s.holder_identity), s.lease_duration_seconds, clone_opt(&s.acquire_time), clone_opt(&s.renew_time)),
        None => (None, None, None, None),
    };
    LeaseSummary {
        name: text_or_empty(&lease.metadata.name),
        namespace: text_or_empty(&lease.metadata.namespace),
        holder_identity,
        lease_duration_seconds,
        acquire_time,
        renew_time,
        created_at: clone_opt(&lease.metadata.creation_timestamp),
    }
}

} // verus!
