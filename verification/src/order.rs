//! The order of text (as `String`'s `Ord` compares it) and sorting by it.
use vstd::prelude::*;
use vstd::relations::{sorted_by, total_ordering};

use crate::model::texts;
use crate::text::chars_of;

verus! {

/// `a` sorts strictly before `b` in lexicographic character order (a proper
/// prefix sorts first).
pub open spec fn lex_lt(a: Seq<char>, b: Seq<char>) -> bool
    decreases a.len(),
{
    if a.len() == 0 {
        b.len() > 0
    } else if b.len() == 0 {
        false
    } else if a[0] != b[0] {
        a[0] < b[0]
    } else {
        lex_lt(a.drop_first(), b.drop_first())
    }
}

/// `a` sorts no later than `b`.
pub open spec fn lex_le(a: Seq<char>, b: Seq<char>) -> bool {
    !lex_lt(b, a)
}

/// `a` sorts no earlier than `b` (the order of a descending sort).
pub open spec fn lex_ge(a: Seq<char>, b: Seq<char>) -> bool {
    !lex_lt(a, b)
}

/// No text sorts before itself.
pub proof fn lemma_lex_irreflexive(a: Seq<char>)
    ensures
        !lex_lt(a, a),
    decreases a.len(),
{
    if a.len() > 0 {
        lemma_lex_irreflexive(a.drop_first());
    }
}

/// Of two texts at most one sorts before the other.
pub proof fn lemma_lex_asymmetric(a: Seq<char>, b: Seq<char>)
    ensures
        !(lex_lt(a, b) && lex_lt(b, a)),
    decreases a.len(),
{
    if a.len() > 0 && b.len() > 0 && a[0] == b[0] {
        lemma_lex_asymmetric(a.drop_first(), b.drop_first());
    }
}

/// Sorting before is transitive.
pub proof fn lemma_lex_transitive(a: Seq<char>, b: Seq<char>, c: Seq<char>)
    requires
        lex_lt(a, b),
        lex_lt(b, c),
    ensures
        lex_lt(a, c),
    decreases a.len(),
{
    if a.len() > 0 && b.len() > 0 && c.len() > 0 && a[0] == b[0] && b[0] == c[0] {
        lemma_lex_transitive(a.drop_first(), b.drop_first(), c.drop_first());
    }
}

/// Of two different texts one sorts before the other.
pub proof fn lemma_lex_connected(a: Seq<char>, b: Seq<char>)
    requires
        a != b,
    ensures
        lex_lt(a, b) || lex_lt(b, a),
    decreases a.len(),
{
    if a.len() > 0 && b.len() > 0 && a[0] == b[0] {
        if a.drop_first() == b.drop_first() {
            assert(a =~= seq![a[0]] + a.drop_first());
            assert(b =~= seq![b[0]] + b.drop_first());
        }
        lemma_lex_connected(a.drop_first(), b.drop_first());
    } else if a.len() > 0 && b.len() > 0 {

    } else if a.len() == 0 && b.len() == 0 {
        assert(a =~= b);
    }
}

/// Sorting no later than is a total order.
pub proof fn lemma_lex_le_total()
    ensures
        total_ordering(|a: Seq<char>, b: Seq<char>| lex_le(a, b)),
{
    let le = |a: Seq<char>, b: Seq<char>| lex_le(a, b);
    assert forall|a: Seq<char>| #[trigger] le(a, a) by {
        lemma_lex_irreflexive(a);
    }
    assert forall|a: Seq<char>, b: Seq<char>| #[trigger] le(a, b) && #[trigger] le(b, a) implies a == b by {
        if a != b {
            lemma_lex_connected(a, b);
        }
    }
    assert forall|a: Seq<char>, b: Seq<char>, c: Seq<char>| #[trigger] le(a, b) && #[trigger] le(b, c)
        implies #[trigger] le(a, c) by {
        if lex_lt(c, a) {
            if b == c {
            } else if lex_lt(b, c) {
                lemma_lex_transitive(b, c, a);
            } else {
                lemma_lex_connected(b, c);
            }
        }
    }
    assert forall|a: Seq<char>, b: Seq<char>| #[trigger] le(a, b) || #[trigger] le(b, a) by {
        lemma_lex_asymmetric(a, b);
    }
}

/// Sorting no earlier than is a total order.
pub proof fn lemma_lex_ge_total()
    ensures
        total_ordering(|a: Seq<char>, b: Seq<char>| lex_ge(a, b)),
{
    let ge = |a: Seq<char>, b: Seq<char>| lex_ge(a, b);
    assert forall|a: Seq<char>| #[trigger] ge(a, a) by {
        lemma_lex_irreflexive(a);
    }
    assert forall|a: Seq<char>, b: Seq<char>| #[trigger] ge(a, b) && #[trigger] ge(b, a) implies a == b by {
        if a != b {
            lemma_lex_connected(a, b);
        }
    }
    assert forall|a: Seq<char>, b: Seq<char>, c: Seq<char>| #[trigger] ge(a, b) && #[trigger] ge(b, c)
        implies #[trigger] ge(a, c) by {
        if lex_lt(a, c) {
            if b == c {
            } else if lex_lt(c, b) {
                lemma_lex_transitive(a, c, b);
            } else {
                lemma_lex_connected(b, c);
            }
        }
    }
    assert forall|a: Seq<char>, b: Seq<char>| #[trigger] ge(a, b) || #[trigger] ge(b, a) by {
        lemma_lex_asymmetric(a, b);
    }
}

/// Whether `a` sorts strictly before `b`.
pub fn lex_less(a: &str, b: &str) -> (r: bool)
    ensures
        r == lex_lt(a@, b@),
{
    let x = chars_of(a);
    let y = chars_of(b);
    let n = x.len();
    let m = y.len();
    let mut i: usize = 0;
    proof {
        assert(x@.skip(0) =~= x@);
        assert(y@.skip(0) =~= y@);
    }
    while i < n && i < m
        invariant
            x@ == a@,
            y@ == b@,
            n == x@.len(),
            m == y@.len(),
            i <= n,
            i <= m,
            lex_lt(a@, b@) == lex_lt(x@.skip(i as int), y@.skip(i as int)),
        decreases n - i,
    {
        proof {
            assert(x@.skip(i as int)[0] == x@[i as int]);
            assert(y@.skip(i as int)[0] == y@[i as int]);
            assert(x@.skip(i as int).drop_first() =~= x@.skip(i + 1));
            assert(y@.skip(i as int).drop_first() =~= y@.skip(i + 1));
        }
        let c = x[i];
        let d = y[i];
        if c != d {
            return c < d;
        }
        i = i + 1;
    }
    i < m && i >= n
}

/// The order a sort follows: ascending, or descending when `descending`.
pub open spec fn sort_order(descending: bool) -> spec_fn(Seq<char>, Seq<char>) -> bool {
    if descending {
        |a: Seq<char>, b: Seq<char>| lex_ge(a, b)
    } else {
        |a: Seq<char>, b: Seq<char>| lex_le(a, b)
    }
}

/// `x` goes strictly before `y` in the chosen order.
pub open spec fn goes_before(x: Seq<char>, y: Seq<char>, descending: bool) -> bool {
    if descending {
        lex_lt(y, x)
    } else {
        lex_lt(x, y)
    }
}

/// The first position of `out` holding a text that `x` goes strictly before.
fn insertion_point(out: &Vec<String>, x: &String, descending: bool) -> (p: usize)
    ensures
        p <= out@.len(),
        forall|j: int| 0 <= j < p ==> #[trigger] (sort_order(descending))(out@[j]@, x@),
        p < out@.len() ==> goes_before(x@, out@[p as int]@, descending),
{
    let m = out.len();
    for p in 0..m
        invariant
            m == out@.len(),
            forall|j: int| 0 <= j < p ==> #[trigger] (sort_order(descending))(out@[j]@, x@),
    {
        let before = if descending {
            lex_less(out[p].as_str(), x.as_str())
        } else {
            lex_less(x.as_str(), out[p].as_str())
        };
        if before {
            return p;
        }
    }
    m
}

/// The texts of `v`, sorted ascending (descending when `descending`); equal
/// texts keep no particular order, which cannot be told apart.
pub fn sort_texts(v: Vec<String>, descending: bool) -> (r: Vec<String>)
    ensures
        texts(r@) == texts(v@).sort_by(sort_order(descending)),
{
    let ghost ord = sort_order(descending);
    proof {
        lemma_lex_le_total();
        lemma_lex_ge_total();
        assert(total_ordering(ord));
    }
    let mut out: Vec<String> = Vec::new();
    let n = v.len();
    let mut rest = v;
    let ghost input = texts(rest@);
    let mut i: usize = 0;
    proof {
        assert(input.take(0) =~= Seq::<Seq<char>>::empty());
        assert(texts(out@) =~= Seq::<Seq<char>>::empty());
    }
    while i < n
        invariant
            n == rest@.len(),
            input == texts(rest@),
            ord == sort_order(descending),
            total_ordering(ord),
            i <= n,
            sorted_by(texts(out@), ord),
            texts(out@).to_multiset() == input.take(i as int).to_multiset(),
        decreases n - i,
    {
        let x = rest[i].clone();
        let p = insertion_point(&out, &x, descending);
        let m = out.len();
        let ghost before = texts(out@);
        let ghost pp = p as int;
        out.insert(p, x);
        proof {
            assert(texts(out@) =~= before.insert(pp, x@));
            vstd::seq_lib::to_multiset_insert(before, pp, x@);
            assert(input.take(i + 1) =~= input.take(i as int).push(input[i as int]));
            vstd::seq_lib::to_multiset_build(input.take(i as int), input[i as int]);
            assert(input[i as int] == x@);
            let s = texts(out@);
            assert forall|a: int, b: int| 0 <= a < b < s.len() implies #[trigger] ord(s[a], s[b]) by {
                if b < pp {
                    assert(s[a] == before[a] && s[b] == before[b]);
                } else if b == pp {
                    assert(s[a] == before[a]);
                } else if a == pp {
                    let b0 = before[pp];
                    let bk = before[b - 1];
                    assert(s[b] == bk);
                    assert(s[a] == x@);
                    if b - 1 > pp {
                        assert(ord(b0, bk));
                    }
                    if descending {
                        assert(lex_lt(b0, x@));
                        if lex_lt(x@, bk) {
                            if b - 1 == pp {
                                lemma_lex_asymmetric(b0, x@);
                            } else {
                                lemma_lex_transitive(b0, x@, bk);
                            }
                        }
                    } else {
                        assert(lex_lt(x@, b0));
                        if lex_lt(bk, x@) {
                            if b - 1 == pp {
                                lemma_lex_asymmetric(b0, x@);
                            } else {
                                lemma_lex_transitive(bk, x@, b0);
                            }
                        }
                    }
                } else if a < pp {
                    assert(s[a] == before[a] && s[b] == before[b - 1]);
                } else {
                    assert(s[a] == before[a - 1] && s[b] == before[b - 1]);
                }
            }
        }
        i = i + 1;
    }
    proof {
        assert(input.take(n as int) =~= input);
        input.lemma_sort_by_ensures(ord);
        vstd::seq_lib::lemma_sorted_unique(texts(out@), input.sort_by(ord), ord);
    }
    out
}

} // verus!
