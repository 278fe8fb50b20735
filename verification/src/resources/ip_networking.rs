//! IP addresses and service CIDRs: summaries.
use vstd::prelude::*;

use crate::model::{clone_opt, opt_text, opt_texts, opt_view, strings_or_empty, text_or_empty, texts, ObjectMetaInfo};

verus! {

/// The object an IP address is allocated to.
#[derive(Clone, Debug, Default)]
pub struct ParentRefInfo {
    pub group: Option<String>,
    pub resource: String,
    pub name: String,
    pub namespace: Option<String>,
}

/// An IP address object; `parent_ref` is that of its spec, absent without one.
#[derive(Clone, Debug, Default)]
pub struct IPAddressInfo {
    pub metadata: ObjectMetaInfo,
    pub parent_ref: Option<ParentRefInfo>,
}

/// A service CIDR; `cidrs` is absent when it has no spec or the spec lists none.
#[derive(Clone, Debug, Default)]
pub struct ServiceCIDRInfo {
    pub metadata: ObjectMetaInfo,
    pub cidrs: Option<Vec<String>>,
}

/// An IP address at a glance.
#[derive(Clone, Debug)]
pub struct IPAddressSummary {
    pub name: String,
    pub parent_ref: Option<ParentRefSummary>,
    pub created_at: Option<String>,
}

/// The object an IP address is allocated to.
#[derive(Clone, Debug)]
pub struct ParentRefSummary {
    pub group: Option<String>,
    pub resource: String,
    pub name: String,
    pub namespace: Option<String>,
}

/// A service CIDR at a glance.
#[derive(Clone, Debug)]
pub struct ServiceCIDRSummary {
    pub name: String,
    pub cidrs: Vec<String>,
    pub created_at: Option<String>,
}

/// `out` summarises `ip`.
pub open spec fn is_ipaddress_summary(out: IPAddressSummary, ip: IPAddressInfo) -> bool {
    &&& out.name@ == opt_text(ip.metadata.name)
    &&& match (out.parent_ref, ip.parent_ref) {
        (Some(o), Some(p)) => opt_view(o.group) == opt_view(p.group) && o.resource@ == p.resource@
            && o.name@ == p.name@ && opt_view(o.namespace) == opt_view(p.namespace),
        (None, None) => true,
        _ => false,
    }
    &&& opt_view(out.created_at) == opt_view(ip.metadata.creation_timestamp)
}

/// `out` summarises `sc`.
pub open spec fn is_servicecidr_summary(out: ServiceCIDRSummary, sc: ServiceCIDRInfo) -> bool {
    &&& out.name@ == opt_text(sc.metadata.name)
    &&& texts(out.cidrs@) == opt_texts(sc.cidrs)
    &&& opt_view(out.created_at) == opt_view(sc.metadata.creation_timestamp)
}

/// An IP address at a glance: what it is allocated to.
pub fn extract_ipaddress_summary(ip: &IPAddressInfo) -> (r: IPAddressSummary)
    ensures
        is_ipaddress_summary(r, *ip),
{
    let parent_ref = match &ip.parent_ref {
        Some(p) => Some(ParentRefSummary {
            group: clone_opt(&p.group),
            resource: p.resource.clone(),
            name: p.name.clone(),
            namespace: clone_opt(&p.namespace),
        }),
        None => None,
    };
    IPAddressSummary {
        name: text_or_empty(&ip.metadata.name),
        parent_ref,
        created_at: clone_opt(&ip.metadata.creation_timestamp),
    }
}

/// A service CIDR at a glance: its ranges.
pub fn extract_servicecidr_summary(sc: &ServiceCIDRInfo) -> (r: ServiceCIDRSummary)
    ensures
        is_servicecidr_summary(r, *sc),
{
    ServiceCIDRSummary {
        name: text_or_empty(&sc.metadata.name),
        cidrs: strings_or_empty(&sc.cidrs),
        created_at: clone_opt(&sc.metadata.creation_timestamp),
    }
}

} // verus!
