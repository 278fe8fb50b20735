//! Dynamic resource allocation: resource claims, claim templates, resource
//! slices and device classes.
use vstd::prelude::*;

use crate::model::{clone_opt, opt_text, opt_view, text_or_empty, ObjectMetaInfo};

verus! {

/// A resource claim: the device classes of its requests, in order
/// (absent when it requests no devices), and whether it has been allocated.
#[derive(Clone, Debug, Default)]
pub struct ResourceClaimInfo {
    pub metadata: ObjectMetaInfo,
    pub request_device_classes: Option<Vec<String>>,
    pub allocated: bool,
}

/// A resource slice.
#[derive(Clone, Debug, Default)]
pub struct ResourceSliceInfo {
    pub metadata: ObjectMetaInfo,
    pub driver: String,
    pub node_name: Option<String>,
    pub pool_name: String,
}

/// A resource claim at a glance.
#[derive(Clone, Debug)]
pub struct ResourceClaimSummary {
    pub name: String,
    pub namespace: String,
    pub device_class_name: Option<String>,
    pub allocated: bool,
    pub created_at: Option<String>,
}

/// A resource claim template at a glance.
#[derive(Clone, Debug)]
pub struct ResourceClaimTemplateSummary {
    pub name: String,
    pub namespace: String,
    pub created_at: Option<String>,
}

/// A resource slice at a glance.
#[derive(Clone, Debug)]
pub struct ResourceSliceSummary {
    pub name: String,
    pub driver_name: String,
    pub node_name: Option<String>,
    pub pool: String,
    pub created_at: Option<String>,
}

/// A device class at a glance.
#[derive(Clone, Debug)]
pub struct DeviceClassSummary {
    pub name: String,
    pub created_at: Option<String>,
}

/// The device class of a claim's first request, if it has one.
pub open spec fn first_device_class(claim: ResourceClaimInfo) -> Option<Seq<char>> {
    match claim.request_device_classes {
        Some(v) => if v@.len() > 0 {
            Some(v@[0]@)
        } else {
            None
        },
        None => None,
    }
}

/// `out` summarises `claim`.
pub open spec fn is_claim_summary(out: ResourceClaimSummary, claim: ResourceClaimInfo) -> bool {
    &&& out.name@ == opt_text(claim.metadata.name)
    &&& out.namespace@ == opt_text(claim.metadata.namespace)
    &&& opt_view(out.device_class_name) == first_device_class(claim)
    &&& out.allocated == claim.allocated
    &&& opt_view(out.created_at) == opt_view(claim.metadata.creation_timestamp)
}

/// `out` summarises the template with metadata `meta`.
pub open spec fn is_template_summary(out: ResourceClaimTemplateSummary, meta: ObjectMetaInfo) -> bool {
    &&& out.name@ == opt_text(meta.name)
    &&& out.namespace@ == opt_text(meta.namespace)
    &&& opt_view(out.created_at) == opt_view(meta.creation_timestamp)
}

/// `out` summarises `slice`.
pub open spec fn is_slice_summary(out: ResourceSliceSummary, slice: ResourceSliceInfo) -> bool {
    &&& out.name@ == opt_text(slice.metadata.name)
    &&& out.driver_name@ == slice.driver@
    &&& opt_view(out.node_name) == opt_view(slice.node_name)
    &&& out.pool@ == slice.pool_name@
    &&& opt_view(out.created_at) == opt_view(slice.metadata.creation_timestamp)
}

/// `out` summarises the device class with metadata `meta`.
pub open spec fn is_device_class_summary(out: DeviceClassSummary, meta: ObjectMetaInfo) -> bool {
    out.name@ == opt_text(meta.name) && opt_view(out.created_at) == opt_view(meta.creation_timestamp)
}

/// A resource claim at a glance: the class of its first request and whether it is allocated.
pub fn extract_claim_summary(claim: &ResourceClaimInfo) -> (r: ResourceClaimSummary)
    ensures
        is_claim_summary(r, *claim),
{
    let device_class_name = match &claim.request_device_classes {
        Some(v) => if v.len() > 0 {
            Some(v[0].clone())
        } else {
            None
        },
        None => None,
    };
    ResourceClaimSummary {
        name: text_or_empty(&claim.metadata.name),
        namespace: text_or_empty(&claim.metadata.namespace),
        device_class_name,
        allocated: claim.allocated,
        created_at: clone_opt(&claim.metadata.creation_timestamp),
    }
}

/// A resource claim template at a glance.
pub fn extract_claim_template_summary(meta: &ObjectMetaInfo) -> (r: ResourceClaimTemplateSummary)
    ensures
        is_template_summary(r, *meta),
{
    ResourceClaimTemplateSummary {
        name: text_or_empty(&meta.name),
        namespace: text_or_empty(&meta.namespace),
        created_at: clone_opt(&meta.creation_timestamp),
    }
}

/// A resource slice at a glance: driver, node and pool.
pub fn extract_slice_summary(slice: &ResourceSliceInfo) -> (r: ResourceSliceSummary)
    ensures
        is_slice_summary(r, *slice),
{
    ResourceSliceSummary {
        name: text_or_empty(&slice.metadata.name),
        driver_name: slice.driver.clone(),
        node_name: clone_opt(&slice.node_name),
        pool: slice.pool_name.clone(),
        created_at: clone_opt(&slice.metadata.creation_timestamp),
    }
}

/// A device class at a glance.
pub fn extract_device_class_summary(meta: &ObjectMetaInfo) -> (r: DeviceClassSummary)
    ensures
        is_device_class_summary(r, *meta),
{
    DeviceClassSummary { name: text_or_empty(&meta.name), created_at: clone_opt(&meta.creation_timestamp) }
}

} // verus!
