//! Ingress classes: summaries, including whether a class is the default one.
use vstd::prelude::*;

use crate::maps::{lookup, map_get};
use crate::model::{clone_opt, opt_map, opt_text, opt_view, text_or_empty, ObjectMetaInfo};
use crate::text::str_eq;

verus! {

/// The parameters an ingress class points to.
#[derive(Clone, Debug, Default)]
pub struct ParametersInfo {
    pub api_group: Option<String>,
    pub kind: String,
    pub name: String,
    pub namespace: Option<String>,
    pub scope: Option<String>,
}

/// The spec of an ingress class.
#[derive(Clone, Debug, Default)]
pub struct IngressClassSpecInfo {
    pub controller: Option<String>,
    pub parameters: Option<ParametersInfo>,
}

/// An ingress class.
#[derive(Clone, Debug, Default)]
pub struct IngressClassInfo {
    pub metadata: ObjectMetaInfo,
    pub spec: Option<IngressClassSpecInfo>,
}

/// The parameters reference of an ingress class.
#[derive(Clone, Debug)]
pub struct IngressClassParametersRef {
    pub api_group: Option<String>,
    pub kind: String,
    pub name: String,
    pub namespace: Option<String>,
    pub scope: Option<String>,
}

/// An ingress class at a glance.
#[derive(Clone, Debug)]
pub struct IngressClassSummary {
    pub name: String,
    pub controller: Option<String>,
    pub is_default: bool,
    pub parameters: Option<IngressClassParametersRef>,
    pub created_at: Option<String>,
}

/// The annotation that marks the default ingress class.
pub open spec fn default_class_key() -> Seq<char> {
    "ingressclass.kubernetes.io/is-default-class"@
}

/// A class is the default one when its default-class annotation is exactly `true`.
pub open spec fn is_default_class(ic: IngressClassInfo) -> bool {
    lookup(opt_map(ic.metadata.annotations), default_class_key()) == Some("true"@)
}

/// `out` copies parameters reference `p`.
pub open spec fn is_parameters_ref(out: IngressClassParametersRef, p: ParametersInfo) -> bool {
    &&& opt_view(out.api_group) == opt_view(p.api_group)
    &&& out.kind@ == p.kind@
    &&& out.name@ == p.name@
    &&& opt_view(out.namespace) == opt_view(p.namespace)
    &&& opt_view(out.scope) == opt_view(p.scope)
}

/// `out` summarises `ic`.
pub open spec fn is_ingressclass_summary(out: IngressClassSummary, ic: IngressClassInfo) -> bool {
    &&& out.name@ == opt_text(ic.metadata.name)
    &&& opt_view(out.controller) == (match ic.spec {
        Some(s) => opt_view(s.controller),
        None => None,
    })
    &&& out.is_default == is_default_class(ic)
    &&& match (out.parameters, ic.spec) {
        (Some(o), Some(s)) => s.parameters matches Some(p) && is_parameters_ref(o, p),
        (None, Some(s)) => s.parameters is None,
        (None, None) => true,
        (Some(_), None) => false,
    }
    &&& opt_view(out.created_at) == opt_view(ic.metadata.creation_timestamp)
}

fn default_flag(ic: &IngressClassInfo) -> (r: bool)
    ensures
        r == is_default_class(*ic),
{
    proof {
        reveal_strlit("true");
    }
    match &ic.metadata.annotations {
        Some(a) => match map_get(a, "ingressclass.kubernetes.io/is-default-class") {
            Some(v) => str_eq(v.as_str(), "true"),
            None => false,
        },
        None => {
            proof {
                assert(!(exists|k: String| Map::<String, String>::empty().contains_key(k)
                    && k@ == default_class_key()));
            }
            false
        },
    }
}

/// An ingress class at a glance: controller, whether it is the default, and its parameters.
pub fn extract_summary(ic: &IngressClassInfo) -> (r: IngressClassSummary)
    ensures
        is_ingressclass_summary(r, *ic),
{
    let (controller, parameters) = match &ic.spec {
        Some(s) => (clone_opt(&s.controller), match &s.parameters {
            Some(p) => Some(IngressClassParametersRef {
                api_group: clone_opt(&p.api_group),
                kind: p.kind.clone(),
                name: p.name.clone(),
                namespace: clone_opt(&p.namespace),
                scope: clone_opt(&p.scope),
            }),
            None => None,
        }),
        None => (None, None),
    };
    IngressClassSummary {
        name: text_or_empty(&ic.metadata.name),
        controller,
        is_default: default_flag(ic),
        parameters,
        created_at: clone_opt(&ic.metadata.creation_timestamp),
    }
}

} // verus!
