//! What the built-in tools compute around their cluster calls: selectors,
//! the metrics request path, and the text of event and metrics reports.
use std::collections::BTreeMap;

use vstd::prelude::*;
use vstd::utf8::encode_utf8;

use crate::maps::{keys_in_order, lookup, map_get, map_keys};
use crate::model::{opt_map, opt_view, texts};
use crate::order::{lex_ge, sort_texts};
use crate::text::push_char;
use crate::types::EventSummary;

verus! {

/// `parts` joined with `sep` between consecutive parts.
pub open spec fn join(parts: Seq<Seq<char>>, sep: Seq<char>) -> Seq<char>
    decreases parts.len(),
{
    if parts.len() == 0 {
        Seq::empty()
    } else if parts.len() == 1 {
        parts[0]
    } else {
        join(parts.drop_last(), sep) + sep + parts.last()
    }
}

/// The texts of `parts` joined with `sep`.
pub fn join_texts(parts: &Vec<String>, sep: &str) -> (r: String)
    ensures
        r@ == join(texts(parts@), sep@),
{
    let mut out = String::new();
    let n = parts.len();
    for i in 0..n
        invariant
            n == parts@.len(),
            out@ == join(texts(parts@).take(i as int), sep@),
    {
        proof {
            assert(texts(parts@).take(i + 1).drop_last() =~= texts(parts@).take(i as int));
            assert(texts(parts@).take(i + 1).last() == parts@[i as int]@);
        }
        if i > 0 {
            out.append(sep);
        }
        out.append(parts[i].as_str());
        proof {
            if i == 0 {
                assert(texts(parts@).take(1) =~= seq![parts@[0]@]);
            }
        }
    }
    proof {
        assert(texts(parts@).take(n as int) =~= texts(parts@));
    }
    out
}

/// `key=value` for each label, in key order, joined with commas; empty
/// when there are no labels.
pub open spec fn selector_text(keys: Seq<String>, labels: Map<String, String>) -> Seq<char> {
    join(
        Seq::new(keys.len(), |i: int| keys[i]@ + "="@ + lookup(labels, keys[i]@)->0),
        ","@,
    )
}

/// The label selector that matches `labels` exactly (`k1=v1,k2=v2`, in key order).
pub fn label_selector(labels: &Option<BTreeMap<String, String>>) -> (r: String)
    ensures
        exists|keys: Seq<String>|
            keys_in_order(keys, opt_map(*labels)) && r@ == selector_text(keys, opt_map(*labels)),
{
    proof {
        reveal_strlit("=");
        reveal_strlit(",");
    }
    let empty: BTreeMap<String, String> = BTreeMap::new();
    let m = match labels {
        Some(l) => l,
        None => &empty,
    };
    let keys = map_keys(m);
    let mut parts: Vec<String> = Vec::new();
    let n = keys.len();
    for i in 0..n
        invariant
            n == keys@.len(),
            keys_in_order(keys@, m@),
            parts@.len() == i,
            forall|j: int|
                0 <= j < i ==> #[trigger] parts@[j]@ == keys@[j]@ + "="@ + lookup(m@, keys@[j]@)->0,
    {
        let mut part = keys[i].clone();
        part.append("=");
        proof {
            assert(m@.contains_key(keys@[i as int]));
        }
        match map_get(m, keys[i].as_str()) {
            Some(v) => part.append(v.as_str()),
            None => {},
        }
        parts.push(part);
    }
    let r = join_texts(&parts, ",");
    proof {
        assert(texts(parts@) =~= Seq::new(
            keys@.len(),
            |i: int| keys@[i]@ + "="@ + lookup(m@, keys@[i]@)->0,
        ));
        assert(m@ == opt_map(*labels));
    }
    r
}

/// The field selector of an events query: `involvedObject.name=<name>` for
/// a resource name, then the caller's own selector, joined with commas;
/// absent when neither is given.
pub open spec fn events_selector_text(name: Option<Seq<char>>, fields: Option<Seq<char>>) -> Option<
    Seq<char>,
> {
    match (name, fields) {
        (None, None) => None,
        (Some(n), None) => Some("involvedObject.name="@ + n),
        (None, Some(f)) => Some(f),
        (Some(n), Some(f)) => Some("involvedObject.name="@ + n + ","@ + f),
    }
}

/// The field selector of an events query.
pub fn events_field_selector(resource_name: Option<&str>, field_selector: Option<&str>) -> (r: Option<String>)
    ensures
        opt_view(r) == events_selector_text(
            match resource_name {
                Some(n) => Some(n@),
                None => None,
            },
            match field_selector {
                Some(f) => Some(f@),
                None => None,
            },
        ),
{
    proof {
        reveal_strlit("involvedObject.name=");
        reveal_strlit(",");
    }
    match (resource_name, field_selector) {
        (None, None) => None,
        (Some(n), None) => {
            let mut s = String::from_str("involvedObject.name=");
            s.append(n);
            Some(s)
        },
        (None, Some(f)) => Some(String::from_str(f)),
        (Some(n), Some(f)) => {
            let mut s = String::from_str("involvedObject.name=");
            s.append(n);
            s.append(",");
            s.append(f);
            Some(s)
        },
    }
}

/// The line an event is reported as:
/// `[<time>] <type> <kind> <name>: <message>`, the time being the last
/// timestamp, else the first, else `?`, and the message `(no message)` when absent.
pub open spec fn event_line_text(e: EventSummary) -> Seq<char> {
    let time = match opt_view(e.last_timestamp) {
        Some(t) => t,
        None => match opt_view(e.first_timestamp) {
            Some(t) => t,
            None => "?"@,
        },
    };
    let message = match opt_view(e.message) {
        Some(m) => m,
        None => "(no message)"@,
    };
    "["@ + time + "] "@ + e.event_type@ + " "@ + e.involved_object_kind@ + " "@
        + e.involved_object_name@ + ": "@ + message
}

/// The line an event is reported as.
pub fn event_line(e: &EventSummary) -> (r: String)
    ensures
        r@ == event_line_text(*e),
{
    proof {
        reveal_strlit("?");
        reveal_strlit("(no message)");
        reveal_strlit("[");
        reveal_strlit("] ");
        reveal_strlit(" ");
        reveal_strlit(": ");
    }
    let time: &str = match &e.last_timestamp {
        Some(t) => t.as_str(),
        None => match &e.first_timestamp {
            Some(t) => t.as_str(),
            None => "?",
        },
    };
    let message: &str = match &e.message {
        Some(m) => m.as_str(),
        None => "(no message)",
    };
    let mut out = String::from_str("[");
    out.append(time);
    out.append("] ");
    out.append(e.event_type.as_str());
    out.append(" ");
    out.append(e.involved_object_kind.as_str());
    out.append(" ");
    out.append(e.involved_object_name.as_str());
    out.append(": ");
    out.append(message);
    proof {
        assert(out@ =~= event_line_text(*e));
    }
    out
}

/// A report of lines: the lines sorted newest (greatest) first, one per
/// line; `empty` when there are none.
pub open spec fn descending_report(lines: Seq<Seq<char>>, empty: Seq<char>) -> Seq<char> {
    if lines.len() == 0 {
        empty
    } else {
        join(lines.sort_by(|a: Seq<char>, b: Seq<char>| lex_ge(a, b)), "\n"@)
    }
}

/// The report of events: their lines, latest first.
pub fn events_report(events: &Vec<EventSummary>) -> (r: String)
    ensures
        r@ == descending_report(
            Seq::new(events@.len(), |i: int| event_line_text(events@[i])),
            "No events found."@,
        ),
{
    proof {
        reveal_strlit("No events found.");
        reveal_strlit("\n");
    }
    let mut lines: Vec<String> = Vec::new();
    let n = events.len();
    for i in 0..n
        invariant
            n == events@.len(),
            lines@.len() == i,
            forall|j: int| 0 <= j < i ==> #[trigger] lines@[j]@ == event_line_text(events@[j]),
    {
        lines.push(event_line(&events[i]));
    }
    let ghost all = Seq::new(events@.len(), |i: int| event_line_text(events@[i]));
    proof {
        assert(texts(lines@) =~= all);
    }
    if lines.len() == 0 {
        return String::from_str("No events found.");
    }
    let sorted = sort_texts(lines, true);
    join_texts(&sorted, "\n")
}

/// An unreserved byte of a label selector: ASCII letters and digits and `-_.~=,`.
pub open spec fn is_unreserved(b: u8) -> bool {
    (0x41 <= b <= 0x5A) || (0x61 <= b <= 0x7A) || (0x30 <= b <= 0x39) || b == 0x2D || b == 0x5F
        || b == 0x2E || b == 0x7E || b == 0x3D || b == 0x2C
}

/// The upper-case hexadecimal digit of `d` (0..=15).
pub open spec fn hex_digit(d: int) -> char {
    if d < 10 {
        (('0' as int) + d) as char
    } else {
        (('A' as int) + d - 10) as char
    }
}

/// `bytes` with every reserved byte written as `%XX` (upper-case hex) and
/// every unreserved byte kept as its character.
pub open spec fn percent_encode(bytes: Seq<u8>) -> Seq<char>
    decreases bytes.len(),
{
    if bytes.len() == 0 {
        Seq::empty()
    } else {
        let b = bytes.last();
        percent_encode(bytes.drop_last()) + if is_unreserved(b) {
            seq![b as char]
        } else {
            seq!['%', hex_digit(b as int / 16), hex_digit(b as int % 16)]
        }
    }
}

/// The path of the metrics API listing pod metrics of namespace `ns`,
/// with the label selector as a query when one is given and not empty.
pub open spec fn metrics_path(ns: Seq<char>, selector: Option<Seq<char>>) -> Seq<char> {
    let base = "/apis/metrics.k8s.io/v1beta1/namespaces/"@ + ns + "/pods"@;
    match selector {
        Some(s) => if s.len() > 0 {
            base + "?labelSelector="@ + percent_encode(encode_utf8(s))
        } else {
            base
        },
        None => base,
    }
}

fn hex_char(d: u8) -> (c: char)
    requires
        d < 16,
    ensures
        c == hex_digit(d as int),
{
    if d < 10 {
        ((48 + d) as char)
    } else {
        ((55 + d) as char)
    }
}

/// The metrics API path for pod metrics of a namespace.
pub fn metrics_uri(ns: &str, label_selector: Option<&str>) -> (r: String)
    ensures
        r@ == metrics_path(
            ns@,
            match label_selector {
                Some(s) => Some(s@),
                None => None,
            },
        ),
{
    proof {
        reveal_strlit("/apis/metrics.k8s.io/v1beta1/namespaces/");
        reveal_strlit("/pods");
        reveal_strlit("?labelSelector=");
    }
    let mut uri = String::from_str("/apis/metrics.k8s.io/v1beta1/namespaces/");
    uri.append(ns);
    uri.append("/pods");
    if let Some(sel) = label_selector {
        if sel.unicode_len() > 0 {
            uri.append("?labelSelector=");
            let bytes = sel.as_bytes();
            let n = bytes.len();
            let ghost start = uri@;
            for i in 0..n
                invariant
                    n == bytes@.len(),
                    bytes@ == encode_utf8(sel@),
                    uri@ == start + percent_encode(bytes@.take(i as int)),
            {
                proof {
                    assert(bytes@.take(i + 1).drop_last() =~= bytes@.take(i as int));
                }
                let b = bytes[i];
                if (b >= 65 && b <= 90) || (b >= 97 && b <= 122) || (b >= 48 && b <= 57) || b == 45
                    || b == 95 || b == 46 || b == 126 || b == 61 || b == 44 {
                    push_char(&mut uri, b as char);
                } else {
                    push_char(&mut uri, '%');
                    push_char(&mut uri, hex_char(b / 16));
                    push_char(&mut uri, hex_char(b % 16));
                }
                proof {
                    assert(uri@ =~= start + percent_encode(bytes@.take(i + 1)));
                }
            }
            proof {
                assert(bytes@.take(n as int) =~= bytes@);
            }
        }
    }
    uri
}

/// The line reporting one container's usage.
pub open spec fn metrics_line_text(pod: Seq<char>, container: Seq<char>, cpu: Seq<char>, memory: Seq<char>) -> Seq<char> {
    "pod="@ + pod + " container="@ + container + " cpu="@ + cpu + " memory="@ + memory
}

/// The line reporting one container's usage.
pub fn metrics_line(pod: &str, container: &str, cpu: &str, memory: &str) -> (r: String)
    ensures
        r@ == metrics_line_text(pod@, container@, cpu@, memory@),
{
    proof {
        reveal_strlit("pod=");
        reveal_strlit(" container=");
        reveal_strlit(" cpu=");
        reveal_strlit(" memory=");
    }
    let mut out = String::from_str("pod=");
    out.append(pod);
    out.append(" container=");
    out.append(container);
    out.append(" cpu=");
    out.append(cpu);
    out.append(" memory=");
    out.append(memory);
    out
}

/// The report of container usage lines, in the order the API gave them.
pub fn metrics_report(lines: &Vec<String>) -> (r: String)
    ensures
        lines@.len() == 0 ==> r@ == "No pod metrics found. Is metrics-server installed?"@,
        lines@.len() > 0 ==> r@ == join(texts(lines@), "\n"@),
{
    proof {
        reveal_strlit("No pod metrics found. Is metrics-server installed?");
        reveal_strlit("\n");
    }
    if lines.len() == 0 {
        String::from_str("No pod metrics found. Is metrics-server installed?")
    } else {
        join_texts(lines, "\n")
    }
}

/// The answer given instead of an error when the metrics API fails with
/// HTTP status `code`: 404 means metrics-server is missing, 503 that it is
/// not ready yet; other codes are errors.
pub open spec fn metrics_status_text(code: u16) -> Option<Seq<char>> {
    if code == 404 {
        Some("metrics-server does not appear to be installed in this cluster."@)
    } else if code == 503 {
        Some("metrics-server is installed but not ready. Give it 60s after startup."@)
    } else {
        None
    }
}

/// See [`metrics_status_text`].
pub fn metrics_status_reply(code: u16) -> (r: Option<String>)
    ensures
        opt_view(r) == metrics_status_text(code),
{
    proof {
        reveal_strlit("metrics-server does not appear to be installed in this cluster.");
        reveal_strlit("metrics-server is installed but not ready. Give it 60s after startup.");
    }
    if code == 404 {
        Some(String::from_str("metrics-server does not appear to be installed in this cluster."))
    } else if code == 503 {
        Some(String::from_str("metrics-server is installed but not ready. Give it 60s after startup."))
    } else {
        None
    }
}

} // verus!
