//! Endpoints: how many subsets and addresses back a service.
use vstd::prelude::*;

use crate::model::{clone_opt, opt_text, opt_view, text_or_empty, ObjectMetaInfo};

verus! {

/// A subset of an endpoints object: the IPs of its ready addresses.
#[derive(Clone, Debug, Default)]
pub struct EndpointSubsetInfo {
    pub addresses: Option<Vec<String>>,
}

/// An endpoints object.
#[derive(Clone, Debug, Default)]
pub struct EndpointsInfo {
    pub metadata: ObjectMetaInfo,
    pub subsets: Option<Vec<EndpointSubsetInfo>>,
}

/// An endpoints object at a glance.
#[derive(Clone, Debug)]
pub struct EndpointsSummary {
    pub name: String,
    pub namespace: String,
    pub subsets_count: usize,
    pub total_addresses: usize,
    pub created_at: Option<String>,
}

/// The subsets of an endpoints object.
pub open spec fn subsets_of(ep: EndpointsInfo) -> Seq<EndpointSubsetInfo> {
    match ep.subsets {
        Some(s) => s@,
        None => Seq::empty(),
    }
}

/// The number of addresses of a subset.
pub open spec fn address_count(s: EndpointSubsetInfo) -> nat {
    match s.addresses {
        Some(a) => a@.len(),
        None => 0,
    }
}

/// The number of addresses over `subsets`.
pub open spec fn total_addresses(subsets: Seq<EndpointSubsetInfo>) -> nat
    decreases subsets.len(),
{
    if subsets.len() == 0 {
        0
    } else {
        total_addresses(subsets.drop_last()) + address_count(subsets.last())
    }
}

/// `out` summarises `ep`.
pub open spec fn is_endpoints_summary(out: EndpointsSummary, ep: EndpointsInfo) -> bool {
    &&& out.name@ == opt_text(ep.metadata.name)
    &&& out.namespace@ == opt_text(ep.metadata.namespace)
    &&& out.subsets_count == subsets_of(ep).len()
    &&& out.total_addresses == total_addresses(subsets_of(ep))
    &&& opt_view(out.created_at) == opt_view(ep.metadata.creation_timestamp)
}

proof fn lemma_total_monotone(s: Seq<EndpointSubsetInfo>, i: int)
    requires
        0 <= i <= s.len(),
    ensures
        total_addresses(s.take(i)) <= total_addresses(s),
    decreases s.len() - i,
{
    if i < s.len() {
        lemma_total_monotone(s, i + 1);
        assert(s.take(i + 1).drop_last() =~= s.take(i));
    } else {
        assert(s.take(i) =~= s);
    }
}

/// An endpoints object at a glance: subsets and the addresses they hold in all.
pub fn extract_summary(ep: &EndpointsInfo) -> (r: EndpointsSummary)
    requires
        total_addresses(subsets_of(*ep)) <= usize::MAX,
    ensures
        is_endpoints_summary(r, *ep),
{
    let mut subsets_count: usize = 0;
    let mut total: usize = 0;
    if let Some(subsets) = &ep.subsets {
        subsets_count = subsets.len();
        let n = subsets.len();
        for i in 0..n
            invariant
                n == subsets@.len(),
                subsets@ == subsets_of(*ep),
                total_addresses(subsets@) <= usize::MAX,
                total == total_addresses(subsets@.take(i as int)),
        {
            proof {
                assert(subsets@.take(i + 1).drop_last() =~= subsets@.take(i as int));
                lemma_total_monotone(subsets@, i + 1);
            }
            let count = match &subsets[i].addresses {
                Some(a) => a.len(),
                None => 0,
            };
            total = total + count;
        }
        proof {
            assert(subsets@.take(n as int) =~= subsets@);
        }
    }
    EndpointsSummary {
        name: text_or_empty(&ep.metadata.name),
        namespace: text_or_empty(&ep.metadata.namespace),
        subsets_count,
        total_addresses: total,
        created_at: clone_opt(&ep.metadata.creation_timestamp),
    }
}

} // verus!
