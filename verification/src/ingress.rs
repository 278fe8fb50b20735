//! Summaries of ingresses: hosts, load-balancer addresses, rules and TLS entries.
use vstd::prelude::*;

use crate::model::{
    clone_opt, map_or_empty, opt_map, opt_text, opt_texts, opt_view,
    strings_or_empty, text_or_empty, texts, IngressInfo, IngressPathInfo, IngressRuleInfo,
    IngressTlsInfo, LoadBalancerIngressInfo,
};
use crate::text::str_eq;
use crate::types::{
    IngressDetail, IngressPathSummary, IngressRuleSummary, IngressSummary, IngressTlsSummary,
};

verus! {

/// The rules of an ingress, none when it has no spec or no rules.
pub open spec fn rules_of(ing: IngressInfo) -> Seq<IngressRuleInfo> {
    match ing.spec {
        Some(s) => match s.rules {
            Some(r) => r@,
            None => Seq::empty(),
        },
        None => Seq::empty(),
    }
}

/// The hosts named by `rules`, in order, skipping rules without a host.
pub open spec fn hosts_of(rules: Seq<IngressRuleInfo>) -> Seq<Seq<char>>
    decreases rules.len(),
{
    if rules.len() == 0 {
        Seq::empty()
    } else {
        let rest = hosts_of(rules.drop_last());
        match rules.last().host {
            Some(h) => rest.push(h@),
            None => rest,
        }
    }
}

/// The address of a load balancer entry: its host name, else its IP.
pub open spec fn address_of(a: LoadBalancerIngressInfo) -> Option<Seq<char>> {
    match a.hostname {
        Some(h) => Some(h@),
        None => opt_view(a.ip),
    }
}

/// The addresses of `entries`, in order, skipping entries with neither.
pub open spec fn addresses_of(entries: Seq<LoadBalancerIngressInfo>) -> Seq<Seq<char>>
    decreases entries.len(),
{
    if entries.len() == 0 {
        Seq::empty()
    } else {
        let rest = addresses_of(entries.drop_last());
        match address_of(entries.last()) {
            Some(a) => rest.push(a),
            None => rest,
        }
    }
}

/// The load-balancer entries of an ingress's status.
pub open spec fn lb_entries(ing: IngressInfo) -> Seq<LoadBalancerIngressInfo> {
    match ing.load_balancer {
        Some(l) => l@,
        None => Seq::empty(),
    }
}

/// The ingress class an ingress names, if any.
pub open spec fn class_of(ing: IngressInfo) -> Option<Seq<char>> {
    match ing.spec {
        Some(s) => opt_view(s.ingress_class_name),
        None => None,
    }
}

/// `out` summarises `ing`.
pub open spec fn is_ingress_summary(out: IngressSummary, ing: IngressInfo) -> bool {
    &&& out.name@ == opt_text(ing.metadata.name)
    &&& out.namespace@ == opt_text(ing.metadata.namespace)
    &&& texts(out.hosts@) == hosts_of(rules_of(ing))
    &&& opt_view(out.ingress_class) == class_of(ing)
    &&& opt_view(out.created_at) == opt_view(ing.metadata.creation_timestamp)
    &&& out.labels@ == opt_map(ing.metadata.labels)
    &&& texts(out.addresses@) == addresses_of(lb_entries(ing))
}

/// `out` describes path `p`: the path defaults to `/`; a service backend
/// gives its name and port number (80 when the port has no number); without
/// one the name is empty and the port 0.
pub open spec fn is_path_summary(out: IngressPathSummary, p: IngressPathInfo) -> bool {
    &&& out.path@ == (match p.path {
        Some(s) => s@,
        None => "/"@,
    })
    &&& out.path_type@ == p.path_type@
    &&& match p.service {
        Some(s) => out.service_name@ == s.name@ && out.service_port == (match s.port_number {
            Some(n) => n,
            None => 80,
        }),
        None => out.service_name@ == Seq::<char>::empty() && out.service_port == 0,
    }
}

/// The paths of a rule, none when it has no HTTP part.
pub open spec fn paths_of(r: IngressRuleInfo) -> Seq<IngressPathInfo> {
    match r.http {
        Some(p) => p@,
        None => Seq::empty(),
    }
}

/// `out` describes rule `r`, path by path.
pub open spec fn is_rule_summary(out: IngressRuleSummary, r: IngressRuleInfo) -> bool {
    &&& opt_view(out.host) == opt_view(r.host)
    &&& out.paths@.len() == paths_of(r).len()
    &&& forall|j: int|
        0 <= j < out.paths@.len() ==> is_path_summary(#[trigger] out.paths@[j], paths_of(r)[j])
}

/// `out` describes TLS entry `t`.
pub open spec fn is_tls_summary(out: IngressTlsSummary, t: IngressTlsInfo) -> bool {
    texts(out.hosts@) == opt_texts(t.hosts) && opt_view(out.secret_name) == opt_view(t.secret_name)
}

/// The TLS entries of an ingress.
pub open spec fn tls_of(ing: IngressInfo) -> Seq<IngressTlsInfo> {
    match ing.spec {
        Some(s) => match s.tls {
            Some(t) => t@,
            None => Seq::empty(),
        },
        None => Seq::empty(),
    }
}

/// `out` describes `ing` in detail.
pub open spec fn is_ingress_detail(out: IngressDetail, ing: IngressInfo) -> bool {
    &&& out.name@ == opt_text(ing.metadata.name)
    &&& out.namespace@ == opt_text(ing.metadata.namespace)
    &&& texts(out.hosts@) == hosts_of(rules_of(ing))
    &&& opt_view(out.ingress_class) == class_of(ing)
    &&& opt_view(out.created_at) == opt_view(ing.metadata.creation_timestamp)
    &&& out.labels@ == opt_map(ing.metadata.labels)
    &&& texts(out.addresses@) == addresses_of(lb_entries(ing))
    &&& out.rules@.len() == rules_of(ing).len()
    &&& (forall|j: int|
        0 <= j < out.rules@.len() ==> is_rule_summary(#[trigger] out.rules@[j], rules_of(ing)[j]))
    &&& out.tls@.len() == tls_of(ing).len()
    &&& (forall|j: int|
        0 <= j < out.tls@.len() ==> is_tls_summary(#[trigger] out.tls@[j], tls_of(ing)[j]))
    &&& out.annotations@ == opt_map(ing.metadata.annotations)
}

fn rules_ref(ing: &IngressInfo) -> (r: Option<&Vec<IngressRuleInfo>>)
    ensures
        match r {
            Some(v) => v@ == rules_of(*ing),
            None => rules_of(*ing) == Seq::<IngressRuleInfo>::empty(),
        },
{
    match &ing.spec {
        Some(s) => match &s.rules {
            Some(r) => Some(r),
            None => None,
        },
        None => None,
    }
}

fn ingress_hosts(ing: &IngressInfo) -> (r: Vec<String>)
    ensures
        texts(r@) == hosts_of(rules_of(*ing)),
{
    let mut out: Vec<String> = Vec::new();
    if let Some(rules) = rules_ref(ing) {
        let n = rules.len();
        for i in 0..n
            invariant
                n == rules@.len(),
                texts(out@) == hosts_of(rules@.take(i as int)),
        {
            proof {
                assert(rules@.take(i + 1).drop_last() =~= rules@.take(i as int));
            }
            let ghost before = out@;
            if let Some(h) = &rules[i].host {
                out.push(h.clone());
                proof {
                    assert(texts(out@) =~= texts(before).push(h@));
                }
            }
        }
        proof {
            assert(rules@.take(n as int) =~= rules@);
        }
    } else {
        proof {
            assert(texts(out@) =~= Seq::<Seq<char>>::empty());
        }
    }
    out
}

fn address(a: &LoadBalancerIngressInfo) -> (r: Option<String>)
    ensures
        opt_view(r) == address_of(*a),
{
    match &a.hostname {
        Some(h) => Some(h.clone()),
        None => clone_opt(&a.ip),
    }
}

fn ingress_addresses(ing: &IngressInfo) -> (r: Vec<String>)
    ensures
        texts(r@) == addresses_of(lb_entries(*ing)),
{
    let mut out: Vec<String> = Vec::new();
    match &ing.load_balancer {
        Some(entries) => {
            let n = entries.len();
            for i in 0..n
                invariant
                    n == entries@.len(),
                    texts(out@) == addresses_of(entries@.take(i as int)),
            {
                proof {
                    assert(entries@.take(i + 1).drop_last() =~= entries@.take(i as int));
                }
                let ghost before = out@;
                if let Some(a) = address(&entries[i]) {
                    out.push(a);
                    proof {
                        assert(texts(out@) =~= texts(before).push(a@));
                    }
                }
            }
            proof {
                assert(entries@.take(n as int) =~= entries@);
            }
        },
        None => {
            proof {
                assert(texts(out@) =~= Seq::<Seq<char>>::empty());
            }
        },
    }
    out
}

fn path_summary(p: &IngressPathInfo) -> (r: IngressPathSummary)
    ensures
        is_path_summary(r, *p),
{
    let path = match &p.path {
        Some(s) => s.clone(),
        None => String::from_str("/"),
    };
    proof {
        reveal_strlit("/");
    }
    let (service_name, service_port) = match &p.service {
        Some(s) => (s.name.clone(), match s.port_number {
            Some(n) => n,
            None => 80,
        }),
        None => (String::new(), 0),
    };
    IngressPathSummary { path, path_type: p.path_type.clone(), service_name, service_port }
}

fn rule_summary(r: &IngressRuleInfo) -> (out: IngressRuleSummary)
    ensures
        is_rule_summary(out, *r),
{
    let mut paths: Vec<IngressPathSummary> = Vec::new();
    if let Some(http) = &r.http {
        let n = http.len();
        for i in 0..n
            invariant
                n == http@.len(),
                http@ == paths_of(*r),
                paths@.len() == i,
                forall|j: int| 0 <= j < i ==> is_path_summary(#[trigger] paths@[j], http@[j]),
        {
            paths.push(path_summary(&http[i]));
        }
    }
    IngressRuleSummary { host: clone_opt(&r.host), paths }
}

fn ingress_rules(ing: &IngressInfo) -> (out: Vec<IngressRuleSummary>)
    ensures
        out@.len() == rules_of(*ing).len(),
        forall|j: int|
            0 <= j < out@.len() ==> is_rule_summary(#[trigger] out@[j], rules_of(*ing)[j]),
{
    let mut out: Vec<IngressRuleSummary> = Vec::new();
    if let Some(rules) = rules_ref(ing) {
        let n = rules.len();
        for i in 0..n
            invariant
                n == rules@.len(),
                rules@ == rules_of(*ing),
                out@.len() == i,
                forall|j: int| 0 <= j < i ==> is_rule_summary(#[trigger] out@[j], rules@[j]),
        {
            out.push(rule_summary(&rules[i]));
        }
    }
    out
}

fn ingress_tls(ing: &IngressInfo) -> (out: Vec<IngressTlsSummary>)
    ensures
        out@.len() == tls_of(*ing).len(),
        forall|j: int| 0 <= j < out@.len() ==> is_tls_summary(#[trigger] out@[j], tls_of(*ing)[j]),
{
    let mut out: Vec<IngressTlsSummary> = Vec::new();
    let list = match &ing.spec {
        Some(s) => &s.tls,
        None => return out,
    };
    if let Some(entries) = list {
        let n = entries.len();
        for i in 0..n
            invariant
                n == entries@.len(),
                entries@ == tls_of(*ing),
                out@.len() == i,
                forall|j: int| 0 <= j < i ==> is_tls_summary(#[trigger] out@[j], entries@[j]),
        {
            let t = &entries[i];
            out.push(
                IngressTlsSummary {
                    hosts: strings_or_empty(&t.hosts),
                    secret_name: clone_opt(&t.secret_name),
                },
            );
        }
    }
    out
}

fn ingress_class(ing: &IngressInfo) -> (r: Option<String>)
    ensures
        opt_view(r) == class_of(*ing),
{
    match &ing.spec {
        Some(s) => clone_opt(&s.ingress_class_name),
        None => None,
    }
}

/// An ingress at a glance: its hosts, class and load-balancer addresses.
pub fn ingress_summary(ing: &IngressInfo) -> (r: IngressSummary)
    ensures
        is_ingress_summary(r, *ing),
{
    IngressSummary {
        name: text_or_empty(&ing.metadata.name),
        namespace: text_or_empty(&ing.metadata.namespace),
        hosts: ingress_hosts(ing),
        ingress_class: ingress_class(ing),
        created_at: clone_opt(&ing.metadata.creation_timestamp),
        labels: map_or_empty(&ing.metadata.labels),
        addresses: ingress_addresses(ing),
    }
}

/// An ingress in detail: the summary plus its rules, TLS entries and annotations.
pub fn ingress_detail(ing: &IngressInfo) -> (r: IngressDetail)
    ensures
        is_ingress_detail(r, *ing),
{
    IngressDetail {
        name: text_or_empty(&ing.metadata.name),
        namespace: text_or_empty(&ing.metadata.namespace),
        hosts: ingress_hosts(ing),
        ingress_class: ingress_class(ing),
        created_at: clone_opt(&ing.metadata.creation_timestamp),
        labels: map_or_empty(&ing.metadata.labels),
        addresses: ingress_addresses(ing),
        rules: ingress_rules(ing),
        tls: ingress_tls(ing),
        annotations: map_or_empty(&ing.metadata.annotations),
    }
}

/// Path `p` sends traffic to the service named `service`.
pub open spec fn path_targets(p: IngressPathInfo, service: Seq<char>) -> bool {
    p.service matches Some(b) && b.name@ == service
}

/// Some path of some rule of `ing` sends traffic to the service named `service`.
pub open spec fn routes_to(ing: IngressInfo, service: Seq<char>) -> bool {
    exists|i: int, j: int|
        0 <= i < rules_of(ing).len() && 0 <= j < paths_of(rules_of(ing)[i]).len() && path_targets(
            #[trigger] paths_of(rules_of(ing)[i])[j],
            service,
        )
}

/// Whether `ing` routes any path to the service named `service` (the
/// ingresses a deployment's detail lists, the service sharing its name).
pub fn routes_to_service(ing: &IngressInfo, service: &str) -> (r: bool)
    ensures
        r == routes_to(*ing, service@),
{
    let rules = match rules_ref(ing) {
        Some(r) => r,
        None => return false,
    };
    let n = rules.len();
    for i in 0..n
        invariant
            n == rules@.len(),
            rules@ == rules_of(*ing),
            forall|a: int, b: int|
                0 <= a < i && 0 <= b < paths_of(rules@[a]).len() ==> !path_targets(#[trigger] paths_of(rules@[a])[b], service@),
    {
        if let Some(http) = &rules[i].http {
            let m = http.len();
            for j in 0..m
                invariant
                    m == http@.len(),
                    rules@ == rules_of(*ing),
                    i < rules@.len(),
                    http@ == paths_of(rules@[i as int]),
                    forall|b: int| 0 <= b < j ==> !path_targets(#[trigger] http@[b], service@),
                    forall|a: int, b: int|
                        0 <= a < i && 0 <= b < paths_of(rules@[a]).len() ==> !path_targets(#[trigger] paths_of(rules@[a])[b], service@),
            {
                if let Some(b) = &http[j].service {
                    if str_eq(b.name.as_str(), service) {
                        proof {
                            assert(paths_of(rules_of(*ing)[i as int])[j as int] == http@[j as int]);
                            assert(path_targets(paths_of(rules_of(*ing)[i as int])[j as int], service@));
                        }
                        return true;
                    }
                }
            }
        }
    }
    false
}

} // verus!
