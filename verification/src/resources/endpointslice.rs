//! Endpoint slices: summaries with their ports, and endpoint details.
use vstd::prelude::*;

use crate::model::{
    clone_opt, clone_strings, opt_text, opt_view, text_or_empty, texts, ObjectMetaInfo,
    ObjectReferenceInfo,
};

verus! {

/// A port of an endpoint slice.
#[derive(Clone, Debug, Default)]
pub struct EndpointPortInfo {
    pub name: Option<String>,
    pub protocol: Option<String>,
    pub port: Option<i32>,
}

/// The readiness of an endpoint.
#[derive(Clone, Debug, Default)]
pub struct EndpointConditionsInfo {
    pub ready: Option<bool>,
    pub serving: Option<bool>,
    pub terminating: Option<bool>,
}

/// An endpoint of a slice.
#[derive(Clone, Debug, Default)]
pub struct EndpointInfo {
    pub addresses: Vec<String>,
    pub conditions: Option<EndpointConditionsInfo>,
    pub target_ref: Option<ObjectReferenceInfo>,
    pub hostname: Option<String>,
    pub node_name: Option<String>,
    pub zone: Option<String>,
}

/// An endpoint slice.
#[derive(Clone, Debug, Default)]
pub struct EndpointSliceInfo {
    pub metadata: ObjectMetaInfo,
    pub address_type: String,
    pub endpoints: Vec<EndpointInfo>,
    pub ports: Option<Vec<EndpointPortInfo>>,
}

/// A port of a slice.
#[derive(Clone, Debug)]
pub struct PortSummary {
    pub name: Option<String>,
    pub protocol: Option<String>,
    pub port: Option<i32>,
}

/// The readiness of an endpoint.
#[derive(Clone, Debug)]
pub struct EndpointConditionsSummary {
    pub ready: Option<bool>,
    pub serving: Option<bool>,
    pub terminating: Option<bool>,
}

/// The object an endpoint routes to.
#[derive(Clone, Debug)]
pub struct TargetRefSummary {
    pub kind: Option<String>,
    pub name: Option<String>,
    pub namespace: Option<String>,
}

/// An endpoint in detail.
#[derive(Clone, Debug)]
pub struct EndpointDetail {
    pub addresses: Vec<String>,
    pub conditions: Option<EndpointConditionsSummary>,
    pub target_ref: Option<TargetRefSummary>,
    pub hostname: Option<String>,
    pub node_name: Option<String>,
    pub zone: Option<String>,
}

/// An endpoint slice at a glance.
#[derive(Clone, Debug)]
pub struct EndpointSliceSummary {
    pub name: String,
    pub namespace: String,
    pub address_type: String,
    pub endpoints_count: usize,
    pub ports: Vec<PortSummary>,
    pub created_at: Option<String>,
}

/// `out` copies port `p`.
pub open spec fn is_port_summary(out: PortSummary, p: EndpointPortInfo) -> bool {
    opt_view(out.name) == opt_view(p.name) && opt_view(out.protocol) == opt_view(p.protocol)
        && out.port == p.port
}

/// The ports of a slice.
pub open spec fn ports_of(es: EndpointSliceInfo) -> Seq<EndpointPortInfo> {
    match es.ports {
        Some(p) => p@,
        None => Seq::empty(),
    }
}

/// `out` summarises slice `es`.
pub open spec fn is_slice_summary(out: EndpointSliceSummary, es: EndpointSliceInfo) -> bool {
    &&& out.name@ == opt_text(es.metadata.name)
    &&& out.namespace@ == opt_text(es.metadata.namespace)
    &&& out.address_type@ == es.address_type@
    &&& out.endpoints_count == es.endpoints@.len()
    &&& out.ports@.len() == ports_of(es).len()
    &&& (forall|j: int| 0 <= j < out.ports@.len() ==> is_port_summary(#[trigger] out.ports@[j], ports_of(es)[j]))
    &&& opt_view(out.created_at) == opt_view(es.metadata.creation_timestamp)
}

/// `out` describes endpoint `ep`.
pub open spec fn is_endpoint_detail(out: EndpointDetail, ep: EndpointInfo) -> bool {
    &&& texts(out.addresses@) == texts(ep.addresses@)
    &&& match (out.conditions, ep.conditions) {
        (Some(o), Some(c)) => o.ready == c.ready && o.serving == c.serving && o.terminating == c.terminating,
        (None, None) => true,
        _ => false,
    }
    &&& match (out.target_ref, ep.target_ref) {
        (Some(o), Some(t)) => opt_view(o.kind) == opt_view(t.kind) && opt_view(o.name) == opt_view(t.name)
            && opt_view(o.namespace) == opt_view(t.namespace),
        (None, None) => true,
        _ => false,
    }
    &&& opt_view(out.hostname) == opt_view(ep.hostname)
    &&& opt_view(out.node_name) == opt_view(ep.node_name)
    &&& opt_view(out.zone) == opt_view(ep.zone)
}

/// A port of a slice.
pub fn extract_port_summary(p: &EndpointPortInfo) -> (r: PortSummary)
    ensures
        is_port_summary(r, *p),
{
    PortSummary { name: clone_opt(&p.name), protocol: clone_opt(&p.protocol), port: p.port }
}

/// A slice at a glance: address type, how many endpoints, and its ports.
pub fn extract_summary(es: &EndpointSliceInfo) -> (r: EndpointSliceSummary)
    ensures
        is_slice_summary(r, *es),
{
    let mut ports: Vec<PortSummary> = Vec::new();
    if let Some(list) = &es.ports {
        let n = list.len();
        for i in 0..n
            invariant
                n == list@.len(),
                list@ == ports_of(*es),
                ports@.len() == i,
                forall|j: int| 0 <= j < i ==> is_port_summary(#[trigger] ports@[j], list@[j]),
        {
            ports.push(extract_port_summary(&list[i]));
        }
    }
    EndpointSliceSummary {
        name: text_or_empty(&es.metadata.name),
        namespace: text_or_empty(&es.metadata.namespace),
        address_type: es.address_type.clone(),
        endpoints_count: es.endpoints.len(),
        ports,
        created_at: clone_opt(&es.metadata.creation_timestamp),
    }
}

/// An endpoint in detail: addresses, readiness, target and placement.
pub fn extract_endpoint_detail(ep: &EndpointInfo) -> (r: EndpointDetail)
    ensures
        is_endpoint_detail(r, *ep),
{
    let conditions = match &ep.conditions {
        Some(c) => Some(EndpointConditionsSummary { ready: c.ready, serving: c.serving, terminating: c.terminating }),
        None => None,
    };
    let target_ref = match &ep.target_ref {
        Some(t) => Some(TargetRefSummary { kind: clone_opt(&t.kind), name: clone_opt(&t.name), namespace: clone_opt(&t.namespace) }),
        None => None,
    };
    EndpointDetail {
        addresses: clone_strings(&ep.addresses),
        conditions,
        target_ref,
        hostname: clone_opt(&ep.hostname),
        node_name: clone_opt(&ep.node_name),
        zone: clone_opt(&ep.zone),
    }
}

} // verus!
