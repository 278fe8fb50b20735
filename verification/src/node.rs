//! Node summaries: readiness, roles from labels, capacity and versions.
use std::collections::BTreeMap;

use vstd::prelude::*;

use crate::maps::{keys_in_order, lookup, map_get, map_keys};
use crate::model::{
    clone_opt, find_pair, lookup_pair, opt_map, opt_text, opt_view, text_or_empty, texts,
    ConditionInfo, NodeInfo,
};
use crate::order::{lex_le, sort_texts};
use crate::text::{has_prefix, str_eq, strip_prefix};
use crate::types::{NodeConditionSummary, NodeSummary};

verus! {

/// The label prefix that names a node role.
pub open spec fn role_prefix() -> Seq<char> {
    "node-role.kubernetes.io/"@
}

/// The roles named by role labels among `keys`, in order: the part after the
/// prefix, when it is not empty.
pub open spec fn roles_from_keys(keys: Seq<Seq<char>>) -> Seq<Seq<char>>
    decreases keys.len(),
{
    if keys.len() == 0 {
        Seq::empty()
    } else {
        let rest = roles_from_keys(keys.drop_last());
        let k = keys.last();
        if has_prefix(k, role_prefix()) && k.len() > role_prefix().len() {
            rest.push(k.skip(role_prefix().len() as int))
        } else {
            rest
        }
    }
}

/// The roles of a node with the given label keys (in order) and labels:
/// the role labels' roles; else the value of the legacy `kubernetes.io/role`
/// label; else `<none>`; sorted.
pub open spec fn roles_of(keys: Seq<Seq<char>>, labels: Map<String, String>) -> Seq<Seq<char>> {
    let found = roles_from_keys(keys);
    let legacy = match lookup(labels, "kubernetes.io/role"@) {
        Some(v) => seq![v],
        None => Seq::empty(),
    };
    let chosen = if found.len() > 0 {
        found
    } else if legacy.len() > 0 {
        legacy
    } else {
        seq!["<none>"@]
    };
    chosen.sort_by(|a: Seq<char>, b: Seq<char>| lex_le(a, b))
}

/// The conditions of a node.
pub open spec fn conditions_of(node: NodeInfo) -> Seq<ConditionInfo> {
    match node.status {
        Some(st) => match st.conditions {
            Some(c) => c@,
            None => Seq::empty(),
        },
        None => Seq::empty(),
    }
}

/// The readiness given by the first `Ready` condition among `conds`:
/// `Ready` when true, `NotReady` when false, else (or with none) `Unknown`.
pub open spec fn readiness(conds: Seq<ConditionInfo>) -> Seq<char>
    decreases conds.len(),
{
    if conds.len() == 0 {
        "Unknown"@
    } else if conds[0].type_@ == "Ready"@ {
        if conds[0].status@ == "True"@ {
            "Ready"@
        } else if conds[0].status@ == "False"@ {
            "NotReady"@
        } else {
            "Unknown"@
        }
    } else {
        readiness(conds.drop_first())
    }
}

fn string_of(s: &str) -> (r: String)
    ensures
        r@ == s@,
{
    String::from_str(s)
}

/// The readiness of a node: `Ready`, `NotReady` or `Unknown`.
pub fn node_ready_status(node: &NodeInfo) -> (r: String)
    ensures
        r@ == readiness(conditions_of(*node)),
{
    proof {
        reveal_strlit("Unknown");
        reveal_strlit("Ready");
        reveal_strlit("NotReady");
    }
    let conds = match &node.status {
        Some(st) => match &st.conditions {
            Some(c) => c,
            None => return string_of("Unknown"),
        },
        None => return string_of("Unknown"),
    };
    let n = conds.len();
    let mut i: usize = 0;
    proof {
        assert(conds@.skip(0) =~= conds@);
    }
    while i < n
        invariant
            n == conds@.len(),
            i <= n,
            conds@ == conditions_of(*node),
            readiness(conds@) == readiness(conds@.skip(i as int)),
        decreases n - i,
    {
        proof {
            assert(conds@.skip(i as int).drop_first() =~= conds@.skip(i + 1));
            assert(conds@.skip(i as int)[0] == conds@[i as int]);
        }
        let c = &conds[i];
        if str_eq(c.type_.as_str(), "Ready") {
            if str_eq(c.status.as_str(), "True") {
                return string_of("Ready");
            } else if str_eq(c.status.as_str(), "False") {
                return string_of("NotReady");
            } else {
                return string_of("Unknown");
            }
        }
        i = i + 1;
    }
    string_of("Unknown")
}

/// The roles of a node, from its labels.
pub fn node_roles(node_labels: &Option<BTreeMap<String, String>>) -> (r: Vec<String>)
    ensures
        exists|keys: Seq<String>|
            keys_in_order(keys, opt_map(*node_labels)) && texts(r@) == roles_of(
                texts(keys),
                opt_map(*node_labels),
            ),
{
    proof {
        reveal_strlit("node-role.kubernetes.io/");
        reveal_strlit("kubernetes.io/role");
        reveal_strlit("<none>");
    }
    let empty: BTreeMap<String, String> = BTreeMap::new();
    let labels = match node_labels {
        Some(l) => l,
        None => &empty,
    };
    let keys = map_keys(labels);
    let mut roles: Vec<String> = Vec::new();
    let n = keys.len();
    for i in 0..n
        invariant
            n == keys@.len(),
            texts(roles@) == roles_from_keys(texts(keys@).take(i as int)),
    {
        proof {
            assert(texts(keys@).take(i + 1).drop_last() =~= texts(keys@).take(i as int));
            assert(texts(keys@).take(i + 1).last() == keys@[i as int]@);
        }
        let ghost before = texts(roles@);
        if let Some(r) = strip_prefix(keys[i].as_str(), "node-role.kubernetes.io/") {
            if r.unicode_len() > 0 {
                roles.push(string_of(r));
                proof {
                    assert(texts(roles@) =~= before.push(r@));
                }
            }
        }
    }
    proof {
        assert(texts(keys@).take(n as int) =~= texts(keys@));
    }
    let ghost found = texts(roles@);
    if roles.len() == 0 {
        if let Some(v) = map_get(labels, "kubernetes.io/role") {
            roles.push(v);
        }
    }
    if roles.len() == 0 {
        roles.push(string_of("<none>"));
    }
    let ghost chosen = texts(roles@);
    proof {
        if found.len() > 0 {
            assert(chosen == found);
        } else if lookup(labels@, "kubernetes.io/role"@) is Some {
            assert(chosen =~= seq![lookup(labels@, "kubernetes.io/role"@)->0]);
        } else {
            assert(chosen =~= seq!["<none>"@]);
        }
    }
    let sorted = sort_texts(roles, false);
    proof {
        assert(labels@ == opt_map(*node_labels));
        assert(keys_in_order(keys@, opt_map(*node_labels)));
        assert(texts(sorted@) == roles_of(texts(keys@), labels@));
    }
    sorted
}

/// `out` copies condition `c`.
pub open spec fn is_condition_summary(out: NodeConditionSummary, c: ConditionInfo) -> bool {
    &&& out.condition_type@ == c.type_@
    &&& out.status@ == c.status@
    &&& opt_view(out.reason) == opt_view(c.reason)
    &&& opt_view(out.message) == opt_view(c.message)
    &&& opt_view(out.last_transition) == opt_view(c.last_transition_time)
}

/// The quantity named `key` in an optional list of quantities.
pub open spec fn quantity(list: Option<Vec<(String, String)>>, key: Seq<char>) -> Option<Seq<char>> {
    match list {
        Some(l) => lookup_pair(l@, key),
        None => None,
    }
}

fn find_quantity(list: &Option<Vec<(String, String)>>, key: &str) -> (r: Option<String>)
    ensures
        opt_view(r) == quantity(*list, key@),
{
    match list {
        Some(l) => find_pair(l, key),
        None => None,
    }
}

/// `out` summarises `node`: name, readiness, roles, cpu and memory capacity
/// and allocatable amounts, OS image, kernel and kubelet versions, conditions.
pub open spec fn is_node_summary(out: NodeSummary, node: NodeInfo) -> bool {
    &&& out.name@ == opt_text(node.metadata.name)
    &&& out.status@ == readiness(conditions_of(node))
    &&& exists|keys: Seq<String>|
        keys_in_order(keys, opt_map(node.metadata.labels)) && texts(out.roles@) == roles_of(
            texts(keys),
            opt_map(node.metadata.labels),
        )
    &&& match node.status {
        Some(st) => {
            &&& opt_view(out.cpu_capacity) == quantity(st.capacity, "cpu"@)
            &&& opt_view(out.memory_capacity) == quantity(st.capacity, "memory"@)
            &&& opt_view(out.cpu_allocatable) == quantity(st.allocatable, "cpu"@)
            &&& opt_view(out.memory_allocatable) == quantity(st.allocatable, "memory"@)
            &&& match st.node_info {
                Some(i) => {
                    &&& opt_view(out.os_image) == Some(i.os_image@)
                    &&& opt_view(out.kernel_version) == Some(i.kernel_version@)
                    &&& opt_view(out.kubelet_version) == Some(i.kubelet_version@)
                },
                None => out.os_image is None && out.kernel_version is None && out.kubelet_version is None,
            }
        },
        None => {
            &&& out.cpu_capacity is None && out.memory_capacity is None
            &&& out.cpu_allocatable is None && out.memory_allocatable is None
            &&& out.os_image is None && out.kernel_version is None && out.kubelet_version is None
        },
    }
    &&& out.conditions@.len() == conditions_of(node).len()
    &&& (forall|j: int|
        0 <= j < out.conditions@.len() ==> is_condition_summary(
            #[trigger] out.conditions@[j],
            conditions_of(node)[j],
        ))
    &&& opt_view(out.created_at) == opt_view(node.metadata.creation_timestamp)
}

fn condition_summaries(node: &NodeInfo) -> (out: Vec<NodeConditionSummary>)
    ensures
        out@.len() == conditions_of(*node).len(),
        forall|j: int|
            0 <= j < out@.len() ==> is_condition_summary(#[trigger] out@[j], conditions_of(*node)[j]),
{
    let mut out: Vec<NodeConditionSummary> = Vec::new();
    if let Some(st) = &node.status {
        if let Some(conds) = &st.conditions {
            let n = conds.len();
            for i in 0..n
                invariant
                    n == conds@.len(),
                    conds@ == conditions_of(*node),
                    out@.len() == i,
                    forall|j: int| 0 <= j < i ==> is_condition_summary(#[trigger] out@[j], conds@[j]),
            {
                let c = &conds[i];
                out.push(
                    NodeConditionSummary {
                        condition_type: c.type_.clone(),
                        status: c.status.clone(),
                        reason: clone_opt(&c.reason),
                        message: clone_opt(&c.message),
                        last_transition: clone_opt(&c.last_transition_time),
                    },
                );
            }
        }
    }
    out
}

/// A node at a glance.
pub fn node_summary(node: &NodeInfo) -> (r: NodeSummary)
    ensures
        is_node_summary(r, *node),
{
    let (cpu_capacity, memory_capacity, cpu_allocatable, memory_allocatable, os_image, kernel_version, kubelet_version) =
        match &node.status {
        Some(st) => {
            let (os, kernel, kubelet) = match &st.node_info {
                Some(i) => (Some(i.os_image.clone()), Some(i.kernel_version.clone()), Some(i.kubelet_version.clone())),
                None => (None, None, None),
            };
            (
                find_quantity(&st.capacity, "cpu"),
                find_quantity(&st.capacity, "memory"),
                find_quantity(&st.allocatable, "cpu"),
                find_quantity(&st.allocatable, "memory"),
                os,
                kernel,
                kubelet,
            )
        },
        None => (None, None, None, None, None, None, None),
    };
    NodeSummary {
        name: text_or_empty(&node.metadata.name),
        status: node_ready_status(node),
        roles: node_roles(&node.metadata.labels),
        cpu_capacity,
        memory_capacity,
        cpu_allocatable,
        memory_allocatable,
        os_image,
        kernel_version,
        kubelet_version,
        conditions: condition_summaries(node),
        created_at: clone_opt(&node.metadata.creation_timestamp),
    }
}

} // verus!
