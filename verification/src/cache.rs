//! An opt-in cache of tool responses, keyed by text, whose entries expire
//! after a time to live. The clock is passed in: `now` is a reading of a
//! monotonic clock in nanoseconds.
use vstd::prelude::*;

use crate::text::{has_prefix, starts_with, str_eq};

verus! {

/// One cached response and when it was stored.
struct CacheEntry {
    key: String,
    value: String,
    inserted_at: u64,
}

/// What a cache holds: for each key its value and when it was stored; how
/// long entries live, in seconds; and whether caching is on.
pub struct CacheView {
    pub entries: Map<Seq<char>, (Seq<char>, u64)>,
    pub ttl_seconds: nat,
    pub enabled: bool,
}

/// A cache of responses.
pub struct ResponseCache {
    entries: Vec<CacheEntry>,
    ttl_seconds: u64,
    enabled: bool,
}

/// Some position of `entries` holds `key`.
spec fn has_key(entries: Seq<CacheEntry>, key: Seq<char>) -> bool {
    exists|i: int| 0 <= i < entries.len() && #[trigger] entries[i].key@ == key
}

/// The position of `entries` that holds `key`.
spec fn key_index(entries: Seq<CacheEntry>, key: Seq<char>) -> int {
    choose|i: int| 0 <= i < entries.len() && #[trigger] entries[i].key@ == key
}

/// The entries as a map from key to value and storage time.
spec fn entries_map(entries: Seq<CacheEntry>) -> Map<Seq<char>, (Seq<char>, u64)> {
    Map::new(
        |k: Seq<char>| has_key(entries, k),
        |k: Seq<char>|
            {
                let e = entries[key_index(entries, k)];
                (e.value@, e.inserted_at)
            },
    )
}

/// No key is stored twice.
spec fn keys_distinct(entries: Seq<CacheEntry>) -> bool {
    forall|i: int, j: int|
        0 <= i < j < entries.len() ==> #[trigger] entries[i].key@ != #[trigger] entries[j].key@
}

impl View for ResponseCache {
    type V = CacheView;

    closed spec fn view(&self) -> CacheView {
        CacheView {
            entries: entries_map(self.entries@),
            ttl_seconds: self.ttl_seconds as nat,
            enabled: self.enabled,
        }
    }
}

/// How long ago `inserted_at` was at `now`, in nanoseconds (0 if the clock
/// reads earlier).
pub open spec fn elapsed(inserted_at: u64, now: u64) -> nat {
    if now >= inserted_at {
        (now - inserted_at) as nat
    } else {
        0
    }
}

/// An entry stored at `inserted_at` is still fresh at `now`.
pub open spec fn is_fresh(inserted_at: u64, now: u64, ttl_seconds: nat) -> bool {
    elapsed(inserted_at, now) < ttl_seconds * 1_000_000_000
}

/// What a lookup of `key` at `now` answers: the value while it is fresh,
/// nothing when it is missing, stale, or caching is off.
pub open spec fn lookup_at(c: CacheView, key: Seq<char>, now: u64) -> Option<Seq<char>> {
    if c.enabled && c.entries.contains_key(key) && is_fresh(
        c.entries[key].1,
        now,
        c.ttl_seconds,
    ) {
        Some(c.entries[key].0)
    } else {
        None
    }
}

/// The cache after storing `value` under `key` at `now` (no change when off).
pub open spec fn after_set(c: CacheView, key: Seq<char>, value: Seq<char>, now: u64) -> CacheView {
    if c.enabled {
        CacheView { entries: c.entries.insert(key, (value, now)), ..c }
    } else {
        c
    }
}

/// The cache after dropping every key that begins with `prefix` (no change when off).
pub open spec fn after_invalidate(c: CacheView, prefix: Seq<char>) -> CacheView {
    if c.enabled {
        CacheView {
            entries: c.entries.restrict(c.entries.dom().filter(|k: Seq<char>| !has_prefix(k, prefix))),
            ..c
        }
    } else {
        c
    }
}

impl ResponseCache {
    /// Keys are distinct, and a cache that is off holds nothing.
    pub closed spec fn wf(&self) -> bool {
        keys_distinct(self.entries@) && (!self.enabled ==> self.entries@.len() == 0)
    }

    /// An empty cache whose entries live `ttl_seconds`, on or off.
    pub fn new(ttl_seconds: u64, enabled: bool) -> (r: Self)
        ensures
            r.wf(),
            r@.entries == Map::<Seq<char>, (Seq<char>, u64)>::empty(),
            r@.ttl_seconds == ttl_seconds,
            r@.enabled == enabled,
    {
        let r = ResponseCache { entries: Vec::new(), ttl_seconds, enabled };
        proof {
            assert(r@.entries =~= Map::<Seq<char>, (Seq<char>, u64)>::empty());
        }
        r
    }

    /// A cache that is off.
    pub fn disabled() -> (r: Self)
        ensures
            r.wf(),
            r@.entries == Map::<Seq<char>, (Seq<char>, u64)>::empty(),
            r@.ttl_seconds == 0,
            !r@.enabled,
    {
        Self::new(0, false)
    }

    fn find(&self, key: &str) -> (r: Option<usize>)
        requires
            self.wf(),
        ensures
            match r {
                Some(i) => i < self.entries@.len() && self.entries@[i as int].key@ == key@,
                None => !has_key(self.entries@, key@),
            },
    {
        let n = self.entries.len();
        for i in 0..n
            invariant
                n == self.entries@.len(),
                forall|j: int| 0 <= j < i ==> self.entries@[j].key@ != key@,
        {
            if str_eq(self.entries[i].key.as_str(), key) {
                return Some(i);
            }
        }
        None
    }

    /// The value cached under `key`, if it is there and still fresh at `now`.
    pub fn get(&self, key: &str, now: u64) -> (r: Option<String>)
        requires
            self.wf(),
        ensures
            match r {
                Some(v) => lookup_at(self@, key@, now) == Some(v@),
                None => lookup_at(self@, key@, now) is None,
            },
    {
        if !self.enabled {
            return None;
        }
        match self.find(key) {
            Some(i) => {
                let e = &self.entries[i];
                proof {
                    assert(has_key(self.entries@, key@));
                    let k = key_index(self.entries@, key@);
                    assert(self.entries@[k].key@ == key@);
                    assert(k == i);
                }
                let age: u64 = if now >= e.inserted_at {
                    now - e.inserted_at
                } else {
                    0
                };
                if (age as u128) < (self.ttl_seconds as u128) * 1_000_000_000 {
                    Some(e.value.clone())
                } else {
                    None
                }
            },
            None => None,
        }
    }

    /// Stores `value` under `key` at `now`, replacing what was there; does
    /// nothing when caching is off.
    pub fn set(&mut self, key: String, value: String, now: u64)
        requires
            old(self).wf(),
        ensures
            final(self).wf(),
            final(self)@ == after_set(old(self)@, key@, value@, now),
    {
        if !self.enabled {
            return;
        }
        let ghost old_entries = self.entries@;
        let ghost k = key@;
        let ghost v = value@;
        match self.find(key.as_str()) {
            Some(i) => {
                self.entries.set(i, CacheEntry { key, value, inserted_at: now });
                proof {
                    let s = self.entries@;
                    assert(keys_distinct(s)) by {
                        assert forall|a: int, b: int| 0 <= a < b < s.len() implies #[trigger] s[a].key@
                            != #[trigger] s[b].key@ by {
                            if a != i && b != i {
                                assert(old_entries[a] == s[a] && old_entries[b] == s[b]);
                            } else if a == i {
                                assert(old_entries[b] == s[b]);
                                assert(old_entries[a].key@ == k);
                            } else {
                                assert(old_entries[a] == s[a]);
                                assert(old_entries[b].key@ == k);
                            }
                        }
                    }
                    assert(entries_map(s) =~= entries_map(old_entries).insert(k, (v, now))) by {
                        assert forall|x: Seq<char>| #[trigger] has_key(s, x) == (has_key(old_entries, x) || x == k) by {
                            if has_key(old_entries, x) {
                                let j = choose|j: int| 0 <= j < old_entries.len() && #[trigger] old_entries[j].key@ == x;
                                if j == i {
                                    assert(s[j].key@ == k);
                                } else {
                                    assert(s[j] == old_entries[j]);
                                }
                            }
                            if x == k {
                                assert(s[i as int].key@ == k);
                            }
                            if has_key(s, x) {
                                let j = choose|j: int| 0 <= j < s.len() && #[trigger] s[j].key@ == x;
                                if j != i {
                                    assert(s[j] == old_entries[j]);
                                }
                            }
                        }
                        assert forall|x: Seq<char>| has_key(s, x) implies entries_map(s)[x]
                            == entries_map(old_entries).insert(k, (v, now))[x] by {
                            let j = key_index(s, x);
                            if x == k {
                                assert(s[i as int].key@ == k);
                                assert(j == i);
                            } else {
                                assert(j != i);
                                assert(s[j] == old_entries[j]);
                                assert(has_key(old_entries, x));
                                let j2 = key_index(old_entries, x);
                                assert(old_entries[j2].key@ == x);
                                assert(j2 == j);
                            }
                        }
                    }
                }
            },
            None => {
                self.entries.push(CacheEntry { key, value, inserted_at: now });
                proof {
                    let s = self.entries@;
                    let n = old_entries.len();
                    assert(keys_distinct(s)) by {
                        assert forall|a: int, b: int| 0 <= a < b < s.len() implies #[trigger] s[a].key@
                            != #[trigger] s[b].key@ by {
                            if b < n {
                                assert(old_entries[a] == s[a] && old_entries[b] == s[b]);
                            } else {
                                assert(old_entries[a] == s[a]);
                                assert(s[b].key@ == k);
                            }
                        }
                    }
                    assert(entries_map(s) =~= entries_map(old_entries).insert(k, (v, now))) by {
                        assert forall|x: Seq<char>| #[trigger] has_key(s, x) == (has_key(old_entries, x) || x == k) by {
                            if has_key(old_entries, x) {
                                let j = choose|j: int| 0 <= j < old_entries.len() && #[trigger] old_entries[j].key@ == x;
                                assert(s[j] == old_entries[j]);
                            }
                            if x == k {
                                assert(s[n as int].key@ == k);
                            }
                            if has_key(s, x) {
                                let j = choose|j: int| 0 <= j < s.len() && #[trigger] s[j].key@ == x;
                                if j < n {
                                    assert(s[j] == old_entries[j]);
                                }
                            }
                        }
                        assert forall|x: Seq<char>| has_key(s, x) implies entries_map(s)[x]
                            == entries_map(old_entries).insert(k, (v, now))[x] by {
                            let j = key_index(s, x);
                            if x == k {
                                assert(s[n as int].key@ == k);
                                assert(j == n);
                            } else {
                                assert(j < n);
                                assert(s[j] == old_entries[j]);
                                assert(has_key(old_entries, x));
                                let j2 = key_index(old_entries, x);
                                assert(old_entries[j2].key@ == x);
                                assert(j2 == j);
                            }
                        }
                    }
                }
            },
        }
    }

    /// Drops every entry whose key begins with `prefix`; does nothing when
    /// caching is off.
    pub fn invalidate(&mut self, prefix: &str)
        requires
            old(self).wf(),
        ensures
            final(self).wf(),
            final(self)@ == after_invalidate(old(self)@, prefix@),
    {
        if !self.enabled {
            return;
        }
        let ghost old_entries = self.entries@;
        let mut kept: Vec<CacheEntry> = Vec::new();
        let ghost mut origin: Seq<int> = Seq::empty();
        let mut taken: Vec<CacheEntry> = Vec::new();
        std::mem::swap(&mut taken, &mut self.entries);
        let n = taken.len();
        let mut i: usize = 0;
        while i < n
            invariant
                n == taken@.len(),
                taken@ == old_entries,
                keys_distinct(old_entries),
                i <= n,
                origin.len() == kept@.len(),
                forall|a: int| 0 <= a < origin.len() ==> 0 <= #[trigger] origin[a] < i,
                forall|a: int, b: int| 0 <= a < b < origin.len() ==> #[trigger] origin[a] < #[trigger] origin[b],
                forall|a: int| 0 <= a < origin.len() ==> kept@[a] == old_entries[#[trigger] origin[a]],
                forall|a: int| 0 <= a < origin.len() ==> !has_prefix(#[trigger] kept@[a].key@, prefix@),
                forall|j: int| 0 <= j < i && !has_prefix(#[trigger] old_entries[j].key@, prefix@) ==> exists|a: int| 0 <= a < origin.len() && origin[a] == j,
            decreases n - i,
        {
            let e = &taken[i];
            let ghost old_origin = origin;
            if !starts_with(e.key.as_str(), prefix) {
                kept.push(CacheEntry { key: e.key.clone(), value: e.value.clone(), inserted_at: e.inserted_at });
                proof {
                    let ghost a = origin.len() as int;
                    origin = origin.push(i as int);
                    assert(origin[a] == i);
                }
            }
            proof {
                assert forall|j: int| 0 <= j <= i && !has_prefix(#[trigger] old_entries[j].key@, prefix@)
                    implies exists|a: int| 0 <= a < origin.len() && origin[a] == j by {
                    if j == i {
                        assert(origin[origin.len() - 1] == i);
                    } else {
                        let a = choose|a: int| 0 <= a < old_origin.len() && old_origin[a] == j;
                        assert(origin[a] == old_origin[a]);
                    }
                }
            }
            i = i + 1;
        }
        self.entries = kept;
        proof {
            let s = self.entries@;
            assert(keys_distinct(s)) by {
                assert forall|a: int, b: int| 0 <= a < b < s.len() implies #[trigger] s[a].key@
                    != #[trigger] s[b].key@ by {
                    assert(origin[a] < origin[b]);
                    assert(s[a] == old_entries[origin[a]]);
                    assert(s[b] == old_entries[origin[b]]);
                }
            }
            let target = entries_map(old_entries).restrict(
                entries_map(old_entries).dom().filter(|k: Seq<char>| !has_prefix(k, prefix@)),
            );
            assert forall|x: Seq<char>| #[trigger] has_key(s, x) == (has_key(old_entries, x) && !has_prefix(x, prefix@)) by {
                if has_key(s, x) {
                    let a = choose|a: int| 0 <= a < s.len() && #[trigger] s[a].key@ == x;
                    assert(s[a] == old_entries[origin[a]]);
                    assert(old_entries[origin[a]].key@ == x);
                }
                if has_key(old_entries, x) && !has_prefix(x, prefix@) {
                    let j = choose|j: int| 0 <= j < old_entries.len() && #[trigger] old_entries[j].key@ == x;
                    assert(!has_prefix(old_entries[j].key@, prefix@));
                    let a = choose|a: int| 0 <= a < origin.len() && origin[a] == j;
                    assert(s[a] == old_entries[origin[a]]);
                    assert(s[a].key@ == x);
                }
            }
            assert(entries_map(s) =~= target) by {
                assert forall|x: Seq<char>| #[trigger] entries_map(s).contains_key(x) == target.contains_key(x) by {
                }
                assert forall|x: Seq<char>| entries_map(s).contains_key(x) implies entries_map(s)[x] == target[x] by {
                    let a = key_index(s, x);
                    assert(s[a] == old_entries[origin[a]]);
                    let j = key_index(old_entries, x);
                    assert(old_entries[j].key@ == x);
                    assert(old_entries[origin[a]].key@ == x);
                    assert(j == origin[a]);
                }
            }
        }
    }

    /// Whether the cache holds no entry.
    pub fn is_empty(&self) -> (r: bool)
        requires
            self.wf(),
        ensures
            r == (self@.entries.dom() =~= Set::<Seq<char>>::empty()),
    {
        let r = self.entries.len() == 0;
        proof {
            if !r {
                assert(has_key(self.entries@, self.entries@[0].key@));
                assert(self@.entries.dom().contains(self.entries@[0].key@));
            }
        }
        r
    }
}

/// A value stored in a cache that is on is read back while it is fresh.
pub proof fn lemma_read_after_write(c: CacheView, key: Seq<char>, value: Seq<char>, at: u64, now: u64)
    requires
        c.enabled,
        is_fresh(at, now, c.ttl_seconds),
    ensures
        lookup_at(after_set(c, key, value, at), key, now) == Some(value),
{
}

/// Storing under one key leaves what every other key answers unchanged.
pub proof fn lemma_set_keeps_other_keys(
    c: CacheView,
    key: Seq<char>,
    value: Seq<char>,
    at: u64,
    other: Seq<char>,
    now: u64,
)
    requires
        other != key,
    ensures
        lookup_at(after_set(c, key, value, at), other, now) == lookup_at(c, other, now),
{
}

/// The later of two writes to a key is the one read back.
pub proof fn lemma_last_write_wins(
    c: CacheView,
    key: Seq<char>,
    first: Seq<char>,
    t1: u64,
    second: Seq<char>,
    t2: u64,
    now: u64,
)
    ensures
        lookup_at(after_set(after_set(c, key, first, t1), key, second, t2), key, now) == lookup_at(
            after_set(c, key, second, t2),
            key,
            now,
        ),
{
}

/// A cache that is off answers nothing and is not changed by writes or invalidations.
pub proof fn lemma_disabled_cache_is_inert(
    c: CacheView,
    key: Seq<char>,
    value: Seq<char>,
    at: u64,
    prefix: Seq<char>,
    now: u64,
)
    requires
        !c.enabled,
    ensures
        lookup_at(c, key, now) is None,
        after_set(c, key, value, at) == c,
        after_invalidate(c, prefix) == c,
{
}

/// With a time to live of zero no entry is ever fresh.
pub proof fn lemma_zero_ttl_never_hits(c: CacheView, key: Seq<char>, now: u64)
    requires
        c.ttl_seconds == 0,
    ensures
        lookup_at(c, key, now) is None,
{
}

/// Invalidation drops exactly the keys that begin with the prefix.
pub proof fn lemma_invalidate_by_prefix(c: CacheView, prefix: Seq<char>, key: Seq<char>, now: u64)
    ensures
        has_prefix(key, prefix) ==> lookup_at(after_invalidate(c, prefix), key, now) is None,
        !has_prefix(key, prefix) ==> lookup_at(after_invalidate(c, prefix), key, now) == lookup_at(
            c,
            key,
            now,
        ),
{
    if c.enabled {
        let d = c.entries.dom().filter(|k: Seq<char>| !has_prefix(k, prefix));
        assert(d.contains(key) == (c.entries.contains_key(key) && !has_prefix(key, prefix)));
    }
}

/// One call on a cache, by the views of its arguments: a `set` (`Store`) of a value
/// under a key at a time, or an `invalidate` of a prefix.
pub enum CacheCall {
    Store { key: Seq<char>, value: Seq<char>, at: u64 },
    Invalidate { prefix: Seq<char> },
}

/// The cache after a sequence of calls, in order, starting from `c`.
pub open spec fn replay(c: CacheView, calls: Seq<CacheCall>) -> CacheView
    decreases calls.len(),
{
    if calls.len() == 0 {
        c
    } else {
        let before = replay(c, calls.drop_last());
        match calls.last() {
            CacheCall::Store { key, value, at } => after_set(before, key, value, at),
            CacheCall::Invalidate { prefix } => after_invalidate(before, prefix),
        }
    }
}

/// The write of `key` that survives `calls`: the last `set` of `key`, unless a
/// later `invalidate` has a prefix that `key` begins with.
pub open spec fn surviving_write(calls: Seq<CacheCall>, key: Seq<char>) -> Option<(Seq<char>, u64)>
    decreases calls.len(),
{
    if calls.len() == 0 {
        None
    } else {
        match calls.last() {
            CacheCall::Store { key: k, value, at } => if k == key {
                Some((value, at))
            } else {
                surviving_write(calls.drop_last(), key)
            },
            CacheCall::Invalidate { prefix } => if has_prefix(key, prefix) {
                None
            } else {
                surviving_write(calls.drop_last(), key)
            },
        }
    }
}

/// What a cache made empty holds after `calls`: for `key`, the surviving
/// write when caching is on, nothing when it is off.
proof fn lemma_replay_entry(ttl_seconds: nat, enabled: bool, calls: Seq<CacheCall>, key: Seq<char>)
    ensures
        ({
            let c = replay(
                CacheView { entries: Map::empty(), ttl_seconds, enabled },
                calls,
            );
            &&& c.enabled == enabled
            &&& c.ttl_seconds == ttl_seconds
            &&& c.entries.contains_key(key) == (enabled && surviving_write(calls, key) is Some)
            &&& c.entries.contains_key(key) ==> c.entries[key] == surviving_write(calls, key)->0
        }),
    decreases calls.len(),
{
    if calls.len() > 0 {
        lemma_replay_entry(ttl_seconds, enabled, calls.drop_last(), key);
    }
}

/// Over a whole history of calls on a cache made by `new(ttl_seconds,
/// enabled)`: a `get` of `key` at `now` answers the value of the last `set`
/// of `key` that no later `invalidate` of a prefix of `key` has dropped,
/// while caching is on and that write is still fresh; otherwise nothing.
pub proof fn lemma_cache_history(
    ttl_seconds: nat,
    enabled: bool,
    calls: Seq<CacheCall>,
    key: Seq<char>,
    now: u64,
)
    ensures
        lookup_at(
            replay(CacheView { entries: Map::empty(), ttl_seconds, enabled }, calls),
            key,
            now,
        ) == match surviving_write(calls, key) {
            Some((value, at)) => if enabled && is_fresh(at, now, ttl_seconds) {
                Some(value)
            } else {
                None
            },
            None => None,
        },
{
    lemma_replay_entry(ttl_seconds, enabled, calls, key);
}

} // verus!
