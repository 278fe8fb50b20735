//! String maps (labels, annotations, config data): their keys in order and lookups by text.
use std::collections::BTreeMap;

use vstd::prelude::*;

use crate::order::lex_lt;

verus! {

/// `keys` lists the keys of `m`, each once, in ascending order.
pub open spec fn keys_in_order(keys: Seq<String>, m: Map<String, String>) -> bool {
    &&& forall|i: int| 0 <= i < keys.len() ==> m.contains_key(#[trigger] keys[i])
    &&& forall|k: String| m.contains_key(k) ==> exists|i: int| 0 <= i < keys.len() && keys[i] == k
    &&& forall|i: int, j: int|
        0 <= i < j < keys.len() ==> lex_lt(#[trigger] keys[i]@, #[trigger] keys[j]@)
}

/// The value stored under the key whose text is `key`, if there is one.
pub open spec fn lookup(m: Map<String, String>, key: Seq<char>) -> Option<Seq<char>> {
    if exists|k: String| m.contains_key(k) && k@ == key {
        let k = choose|k: String| m.contains_key(k) && k@ == key;
        Some(m[k]@)
    } else {
        None
    }
}

/// The keys of `m`, in ascending order.
///
/// Calls `BTreeMap::keys`, which yields the keys in ascending `Ord` order;
/// `String` orders by bytes, which for UTF-8 text is the order of the
/// characters' code points. The contract states that order as `lex_lt`.
#[verifier::external_body]
pub(crate) fn map_keys(m: &BTreeMap<String, String>) -> (r: Vec<String>)
    ensures
        keys_in_order(r@, m@),
{
    m.keys().cloned().collect()
}

/// The value stored under `key`, copied.
///
/// Calls `BTreeMap::get`, which finds the entry whose key equals `key`.
#[verifier::external_body]
pub(crate) fn map_get(m: &BTreeMap<String, String>, key: &str) -> (r: Option<String>)
    ensures
        match r {
            Some(v) => lookup(m@, key@) == Some(v@),
            None => lookup(m@, key@) is None,
        },
{
    m.get(key).cloned()
}

} // verus!
