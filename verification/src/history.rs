//! Deployment revision history: reading revision numbers, the history
//! report, and choosing the replica set to roll back to.
use vstd::prelude::*;

use crate::calendar::{int_text, push_int};
use crate::handlers::{descending_report, join_texts};
use crate::model::{opt_view, texts};
use crate::order::sort_texts;
use crate::text::chars_of;

verus! {

/// `s` is a non-empty run of ASCII digits.
pub open spec fn all_digits(s: Seq<char>) -> bool {
    s.len() > 0 && forall|i: int| 0 <= i < s.len() ==> '0' <= #[trigger] s[i] <= '9'
}

/// The number a run of ASCII digits denotes.
pub open spec fn digits_value(s: Seq<char>) -> int
    decreases s.len(),
{
    if s.len() == 0 {
        0
    } else {
        digits_value(s.drop_last()) * 10 + (s.last() as int - '0' as int)
    }
}

/// The number a text denotes in decimal: an optional `+` or `-` sign, then
/// at least one ASCII digit and nothing else.
pub open spec fn decimal_value(s: Seq<char>) -> Option<int> {
    if s.len() > 0 && (s[0] == '+' || s[0] == '-') {
        let rest = s.drop_first();
        if all_digits(rest) {
            Some(
                if s[0] == '-' {
                    -digits_value(rest)
                } else {
                    digits_value(rest)
                },
            )
        } else {
            None
        }
    } else if all_digits(s) {
        Some(digits_value(s))
    } else {
        None
    }
}

/// What parsing `s` as a 64-bit signed integer gives: its decimal value
/// when it has one and it fits.
pub open spec fn parsed_i64(s: Seq<char>) -> Option<i64> {
    match decimal_value(s) {
        Some(v) => if i64::MIN <= v <= i64::MAX {
            Some(v as i64)
        } else {
            None
        },
        None => None,
    }
}

proof fn lemma_digits_value_grows(s: Seq<char>, i: int)
    requires
        0 <= i <= s.len(),
        forall|j: int| 0 <= j < s.len() ==> '0' <= #[trigger] s[j] <= '9',
    ensures
        0 <= digits_value(s.take(i)) <= digits_value(s),
    decreases s.len() - i,
{
    if i < s.len() {
        lemma_digits_value_grows(s, i + 1);
        assert(s.take(i + 1).drop_last() =~= s.take(i));
        lemma_digits_value_nonneg(s.take(i));
    } else {
        assert(s.take(i) =~= s);
        lemma_digits_value_nonneg(s);
    }
}

proof fn lemma_digits_value_nonneg(s: Seq<char>)
    requires
        forall|j: int| 0 <= j < s.len() ==> '0' <= #[trigger] s[j] <= '9',
    ensures
        digits_value(s) >= 0,
    decreases s.len(),
{
    if s.len() > 0 {
        lemma_digits_value_nonneg(s.drop_last());
    }
}

/// Parses a decimal 64-bit signed integer (`str::parse::<i64>`).
pub fn parse_i64(s: &str) -> (r: Option<i64>)
    ensures
        r == parsed_i64(s@),
{
    let v = chars_of(s);
    let n = v.len();
    if n == 0 {
        return None;
    }
    let negative = v[0] == '-';
    let start: usize = if v[0] == '+' || v[0] == '-' {
        1
    } else {
        0
    };
    if start == n {
        return None;
    }
    let ghost digits = v@.skip(start as int);
    let limit: i128 = 9223372036854775808;
    let mut acc: i128 = 0;
    let mut i: usize = start;
    proof {
        assert(digits.take(0) =~= Seq::<char>::empty());
    }
    while i < n
        invariant
            n == v@.len(),
            v@ == s@,
            start <= i <= n,
            start < n,
            digits == v@.skip(start as int),
            forall|j: int| start <= j < i ==> '0' <= #[trigger] v@[j] <= '9',
            acc == digits_value(digits.take(i - start)),
            0 <= acc <= limit,
            limit == 9223372036854775808,
            start <= 1,
            start == 1 <==> (s@[0] == '+' || s@[0] == '-'),
            negative == (s@[0] == '-'),
        decreases n - i,
    {
        let c = v[i];
        if c < '0' || c > '9' {
            proof {
                assert(digits[i - start] == c);
                assert(!all_digits(digits));
                if start == 1 {
                    assert(digits =~= s@.drop_first());
                } else {
                    assert(v@.skip(0) =~= v@);
                    assert(!all_digits(s@));
                }
            }
            return None;
        }
        let d: i128 = (c as u32 - '0' as u32) as i128;
        proof {
            assert(digits.take(i - start + 1).drop_last() =~= digits.take(i - start));
            assert(digits.take(i - start + 1).last() == c);
        }
        acc = acc * 10 + d;
        i = i + 1;
        if acc > limit {
            proof {
                // every remaining character is a digit or the text is not a number at all
                if all_digits(digits) {
                    lemma_digits_value_grows(digits, i - start);
                }
                if start == 1 {
                    assert(digits =~= s@.drop_first());
                } else {
                    assert(v@.skip(0) =~= v@);
                }
            }
            return None;
        }
    }
    proof {
        assert(digits.take(n - start) =~= digits);
        assert(all_digits(digits));
        if start == 1 {
            assert(digits =~= s@.drop_first());
        } else {
            assert(v@.skip(0) =~= v@);
        }
    }
    if negative {
        Some((-acc) as i64)
    } else if acc < limit {
        Some(acc as i64)
    } else {
        None
    }
}

/// A replica set of a deployment, as its history shows it.
#[derive(Clone, Debug, Default)]
pub struct ReplicaSetInfo {
    /// The `deployment.kubernetes.io/revision` annotation, if present.
    pub revision: Option<String>,
    /// The `kubernetes.io/change-cause` annotation, if present.
    pub change_cause: Option<String>,
    /// The image of the first container of its pod template, if any.
    pub image: Option<String>,
    pub replicas: Option<i32>,
    pub ready_replicas: Option<i32>,
    pub created_at: Option<String>,
    pub has_template: bool,
}

/// The revision number of a replica set, when its annotation holds one.
pub open spec fn revision_of(rs: ReplicaSetInfo) -> Option<i64> {
    match rs.revision {
        Some(t) => parsed_i64(t@),
        None => None,
    }
}

/// The history line of a replica set with revision `rev`.
pub open spec fn revision_line_text(rev: i64, rs: ReplicaSetInfo) -> Seq<char> {
    let image = match opt_view(rs.image) {
        Some(i) => i,
        None => "<unknown>"@,
    };
    let replicas: i32 = match rs.replicas {
        Some(n) => n,
        None => 0,
    };
    let ready: i32 = match rs.ready_replicas {
        Some(n) => n,
        None => 0,
    };
    let created = match opt_view(rs.created_at) {
        Some(c) => c,
        None => "?"@,
    };
    let cause = match opt_view(rs.change_cause) {
        Some(c) => c,
        None => Seq::empty(),
    };
    "Rev "@ + int_text(rev as int) + ": image="@ + image + " replicas="@ + int_text(replicas as int)
        + "/"@ + int_text(ready as int) + " created="@ + created + " cause="@ + cause
}

/// The history lines of `sets`, in order, for those with a revision number.
pub open spec fn history_lines(sets: Seq<ReplicaSetInfo>) -> Seq<Seq<char>>
    decreases sets.len(),
{
    if sets.len() == 0 {
        Seq::empty()
    } else {
        let rest = history_lines(sets.drop_last());
        match revision_of(sets.last()) {
            Some(rev) => rest.push(revision_line_text(rev, sets.last())),
            None => rest,
        }
    }
}

fn revision_line(rev: i64, rs: &ReplicaSetInfo) -> (r: String)
    ensures
        r@ == revision_line_text(rev, *rs),
{
    proof {
        reveal_strlit("<unknown>");
        reveal_strlit("?");
        reveal_strlit("Rev ");
        reveal_strlit(": image=");
        reveal_strlit(" replicas=");
        reveal_strlit("/");
        reveal_strlit(" created=");
        reveal_strlit(" cause=");
        reveal_strlit("");
    }
    let image: &str = match &rs.image {
        Some(i) => i.as_str(),
        None => "<unknown>",
    };
    let replicas: i32 = match rs.replicas {
        Some(n) => n,
        None => 0,
    };
    let ready: i32 = match rs.ready_replicas {
        Some(n) => n,
        None => 0,
    };
    let created: &str = match &rs.created_at {
        Some(c) => c.as_str(),
        None => "?",
    };
    let cause: &str = match &rs.change_cause {
        Some(c) => c.as_str(),
        None => "",
    };
    let mut out = String::from_str("Rev ");
    push_int(&mut out, rev);
    out.append(": image=");
    out.append(image);
    out.append(" replicas=");
    push_int(&mut out, replicas as i64);
    out.append("/");
    push_int(&mut out, ready as i64);
    out.append(" created=");
    out.append(created);
    out.append(" cause=");
    out.append(cause);
    proof {
        assert(out@ =~= revision_line_text(rev, *rs));
    }
    out
}

/// The revision history of a deployment from its replica sets: one line per
/// replica set with a revision number, sorted greatest first.
pub fn history_report(sets: &Vec<ReplicaSetInfo>) -> (r: String)
    ensures
        r@ == descending_report(history_lines(sets@), "No revision history found."@),
{
    proof {
        reveal_strlit("No revision history found.");
        reveal_strlit("\n");
    }
    let mut lines: Vec<String> = Vec::new();
    let n = sets.len();
    for i in 0..n
        invariant
            n == sets@.len(),
            texts(lines@) == history_lines(sets@.take(i as int)),
    {
        proof {
            assert(sets@.take(i + 1).drop_last() =~= sets@.take(i as int));
            assert(sets@.take(i + 1).last() == sets@[i as int]);
        }
        let ghost before = texts(lines@);
        let rev = match &sets[i].revision {
            Some(t) => parse_i64(t.as_str()),
            None => None,
        };
        if let Some(rev) = rev {
            lines.push(revision_line(rev, &sets[i]));
            proof {
                assert(texts(lines@) =~= before.push(revision_line_text(rev, sets@[i as int])));
            }
        }
    }
    proof {
        assert(sets@.take(n as int) =~= sets@);
    }
    if lines.len() == 0 {
        return String::from_str("No revision history found.");
    }
    let sorted = sort_texts(lines, true);
    join_texts(&sorted, "\n")
}

/// The refusal when no replica set has the revision asked for.
pub open spec fn revision_missing_text(revision: i64) -> Seq<char> {
    "ReplicaSet with revision "@ + int_text(revision as int) + " not found"@
}

/// Which replica set a rollback to `revision` restores: the first one with
/// that revision number; refused when there is none, or when it has no pod template.
pub fn rollback_target(sets: &Vec<ReplicaSetInfo>, revision: i64) -> (r: Result<usize, String>)
    ensures
        match r {
            Ok(i) => i < sets@.len() && revision_of(sets@[i as int]) == Some(revision) && (forall|
                j: int,
            | 0 <= j < i ==> revision_of(#[trigger] sets@[j]) != Some(revision)) && sets@[i as int].has_template,
            Err(e) => (!(exists|i: int|
                0 <= i < sets@.len() && revision_of(#[trigger] sets@[i]) == Some(revision)) && e@
                == revision_missing_text(revision)) || (exists|i: int|
                0 <= i < sets@.len() && revision_of(#[trigger] sets@[i]) == Some(revision) && (forall|
                    j: int,
                | 0 <= j < i ==> revision_of(#[trigger] sets@[j]) != Some(revision))
                    && !sets@[i].has_template && e@ == "Target ReplicaSet has no pod template"@),
        },
{
    proof {
        reveal_strlit("ReplicaSet with revision ");
        reveal_strlit(" not found");
        reveal_strlit("Target ReplicaSet has no pod template");
    }
    let n = sets.len();
    for i in 0..n
        invariant
            n == sets@.len(),
            forall|j: int| 0 <= j < i ==> revision_of(#[trigger] sets@[j]) != Some(revision),
    {
        let rev = match &sets[i].revision {
            Some(t) => parse_i64(t.as_str()),
            None => None,
        };
        if rev == Some(revision) {
            if sets[i].has_template {
                return Ok(i);
            } else {
                return Err(String::from_str("Target ReplicaSet has no pod template"));
            }
        }
    }
    let mut m = String::from_str("ReplicaSet with revision ");
    push_int(&mut m, revision);
    m.append(" not found");
    Err(m)
}

} // verus!
