//! The outbound wire payload, built as verified text: JSON string escaping,
//! and the rendering of metrics and components.

use vstd::prelude::*;
use vstd::string::StrSliceExecFns;

use crate::component::{Component, ComponentView};
use crate::metric::{Metric, MetricView};
use crate::numbers::{dec_digits, dec_int, digit_char, i64_to_dec, u64_to_dec};

verus! {

/// The hexadecimal digit character for `d` (`0 <= d <= 15`).
pub open spec fn hex_digit(d: int) -> char {
    if d < 10 {
        digit_char(d)
    } else if d == 10 {
        'a'
    } else if d == 11 {
        'b'
    } else if d == 12 {
        'c'
    } else if d == 13 {
        'd'
    } else if d == 14 {
        'e'
    } else {
        'f'
    }
}

/// How one character appears inside a JSON string literal: quote and
/// backslash are escaped, the common control characters get their short
/// escapes, any other control character its `\u00..` form, and everything
/// else stands as it is.
pub open spec fn escaped_char(c: char) -> Seq<char> {
    if c == '"' {
        seq!['\\', '"']
    } else if c == '\\' {
        seq!['\\', '\\']
    } else if c == '\n' {
        seq!['\\', 'n']
    } else if c == '\r' {
        seq!['\\', 'r']
    } else if c == '\t' {
        seq!['\\', 't']
    } else if (c as u32) < 32 {
        seq!['\\', 'u', '0', '0', hex_digit(c as u32 as int / 16), hex_digit(c as u32 as int % 16)]
    } else {
        seq![c]
    }
}

/// A text with each character escaped for a JSON string literal.
pub open spec fn escaped(s: Seq<char>) -> Seq<char>
    decreases s.len(),
{
    if s.len() == 0 {
        Seq::empty()
    } else {
        escaped(s.drop_last()) + escaped_char(s.last())
    }
}

/// A JSON string literal: the escaped text between double quotes.
pub open spec fn quoted(s: Seq<char>) -> Seq<char> {
    seq!['"'] + escaped(s) + seq!['"']
}

/// The one-character string holding the hexadecimal digit `d`.
fn hex_digit_string(d: u32) -> (s: String)
    requires
        d < 16,
    ensures
        s@ == seq![hex_digit(d as int)],
{
    let s: &str = match d {
        0 => "0",
        1 => "1",
        2 => "2",
        3 => "3",
        4 => "4",
        5 => "5",
        6 => "6",
        7 => "7",
        8 => "8",
        9 => "9",
        10 => "a",
        11 => "b",
        12 => "c",
        13 => "d",
        14 => "e",
        _ => "f",
    };
    proof {
        reveal_strlit("0");
        reveal_strlit("1");
        reveal_strlit("2");
        reveal_strlit("3");
        reveal_strlit("4");
        reveal_strlit("5");
        reveal_strlit("6");
        reveal_strlit("7");
        reveal_strlit("8");
        reveal_strlit("9");
        reveal_strlit("a");
        reveal_strlit("b");
        reveal_strlit("c");
        reveal_strlit("d");
        reveal_strlit("e");
        reveal_strlit("f");
        assert(s@ =~= seq![hex_digit(d as int)]);
    }
    s.to_owned()
}

/// Escapes a text for use inside a JSON string literal.
#[verifier::loop_isolation(false)]
pub fn escape_json(s: &str) -> (out: String)
    ensures
        out@ == escaped(s@),
{
    proof {
        reveal_strlit("\\\"");
        reveal_strlit("\\\\");
        reveal_strlit("\\n");
        reveal_strlit("\\r");
        reveal_strlit("\\t");
        reveal_strlit("\\u00");
    }
    let n = s.unicode_len();
    let mut out = String::new();
    let mut i: usize = 0;
    while i < n
        invariant
            i <= n,
            n == s@.len(),
            out@ == escaped(s@.take(i as int)),
        decreases n - i,
    {
        let c = s.get_char(i);
        if c == '"' {
            out.append("\\\"");
        } else if c == '\\' {
            out.append("\\\\");
        } else if c == '\n' {
            out.append("\\n");
        } else if c == '\r' {
            out.append("\\r");
        } else if c == '\t' {
            out.append("\\t");
        } else if (c as u32) < 32 {
            let d = c as u32;
            out.append("\\u00");
            out.append(hex_digit_string(d / 16).as_str());
            out.append(hex_digit_string(d % 16).as_str());
        } else {
            let piece = s.substring_char(i, i + 1);
            proof {
                assert(piece@ =~= seq![s@[i as int]]);
            }
            out.append(piece);
        }
        proof {
            assert(s@.take(i as int + 1).drop_last() =~= s@.take(i as int));
            assert(s@.take(i as int + 1).last() == s@[i as int]);
            assert(out@ =~= escaped(s@.take(i as int + 1)));
        }
        i += 1;
    }
    proof {
        assert(s@.take(n as int) =~= s@);
    }
    out
}

/// Builds the JSON string literal for a text.
pub fn quoted_string(s: &str) -> (out: String)
    ensures
        out@ == quoted(s@),
{
    let mut out = "\"".to_owned();
    out.append(escape_json(s).as_str());
    out.append("\"");
    proof {
        reveal_strlit("\"");
        assert(out@ =~= quoted(s@));
    }
    out
}

/// One metric's payload entry: its quoted name mapped to the fixed tuple
/// `[value, count, min, max, sum_of_squares]`.
pub open spec fn metric_json(m: MetricView) -> Seq<char> {
    quoted(m.name) + ":["@ + dec_int(m.value) + ","@ + dec_int(m.count) + ","@ + dec_int(m.min)
        + ","@ + dec_int(m.max) + ","@ + dec_int(m.sum_of_squares) + "]"@
}

/// The first `k` metric entries, comma-separated.
pub open spec fn metric_entries(ms: Seq<MetricView>, k: int) -> Seq<char>
    decreases k,
{
    if k <= 0 {
        Seq::empty()
    } else if k == 1 {
        metric_json(ms[0])
    } else {
        metric_entries(ms, k - 1) + ","@ + metric_json(ms[k - 1])
    }
}

/// A component's metrics as a JSON object, in registration order.
pub open spec fn metrics_json(ms: Seq<MetricView>) -> Seq<char> {
    "{"@ + metric_entries(ms, ms.len() as int) + "}"@
}

/// The duration a component reports at wall-clock `now`: the configured
/// delivery interval when nothing was delivered yet, else the elapsed time.
pub open spec fn duration_value(c: ComponentView, now: int, deliver_cycle: int) -> int {
    match c.last_delivered_at {
        None => deliver_cycle,
        Some(t) => now - t,
    }
}

/// A component that has delivered reports zero elapsed duration immediately
/// after, and its duration grows exactly with the wall clock.
pub proof fn lemma_duration_monotonic(c: ComponentView, deliver_cycle: int, n1: int, n2: int)
    requires
        c.last_delivered_at is Some,
        n1 <= n2,
    ensures
        duration_value(c, n1, deliver_cycle) <= duration_value(c, n2, deliver_cycle),
        c.last_delivered_at == Some(n1) ==> duration_value(c, n1, deliver_cycle) == 0,
{
}

/// One component's payload entry: name, guid, duration, and its metrics.
pub open spec fn component_json(c: ComponentView, now: int, deliver_cycle: int) -> Seq<char> {
    "{\"name\":"@ + quoted(c.name) + ",\"guid\":"@ + quoted(c.guid) + ",\"duration\":"@ + dec_int(
        duration_value(c, now, deliver_cycle),
    ) + ",\"metrics\":"@ + metrics_json(c.metrics) + "}"@
}

/// Renders one metric's payload entry.
pub fn metric_json_string(m: &Metric) -> (out: String)
    ensures
        out@ == metric_json(m@),
{
    let mut out = quoted_string(m.name().as_str());
    out.append(":[");
    out.append(i64_to_dec(m.value()).as_str());
    out.append(",");
    out.append(u64_to_dec(m.count()).as_str());
    out.append(",");
    out.append(i64_to_dec(m.min()).as_str());
    out.append(",");
    out.append(i64_to_dec(m.max()).as_str());
    out.append(",");
    out.append(i64_to_dec(m.sum_of_squares()).as_str());
    out.append("]");
    proof {
        assert(dec_int(m@.count) == dec_digits(m@.count as nat));
        assert(out@ =~= metric_json(m@));
    }
    out
}

/// Renders a component's metrics object.
#[verifier::loop_isolation(false)]
fn metrics_json_string(ms: &Vec<Metric>, Ghost(mst): Ghost<Seq<MetricView>>) -> (out: String)
    requires
        mst.len() == ms@.len(),
        forall|k: int| 0 <= k < mst.len() ==> mst[k] == ms@[k]@,
    ensures
        out@ == metrics_json(mst),
{
    let n = ms.len();
    let mut out = "{".to_owned();
    let mut j: usize = 0;
    while j < n
        invariant
            j <= n,
            n == ms.len(),
            out@ == "{"@ + metric_entries(mst, j as int),
        decreases n - j,
    {
        if j > 0 {
            out.append(",");
        }
        let entry = metric_json_string(&ms[j]);
        out.append(entry.as_str());
        proof {
            assert(out@ =~= "{"@ + metric_entries(mst, j as int + 1));
        }
        j += 1;
    }
    out.append("}");
    proof {
        assert(out@ =~= metrics_json(mst));
    }
    out
}

/// Renders one component's payload entry, with its duration taken at
/// wall-clock `now` against the configured delivery interval.
pub fn component_json_string(c: &Component, now: i64, deliver_cycle: i64) -> (out: String)
    requires
        crate::clock::ts_in_range(now as int),
        c@.wf(),
    ensures
        out@ == component_json(c@, now as int, deliver_cycle as int),
{
    let mut out = "{\"name\":".to_owned();
    out.append(quoted_string(c.name().as_str()).as_str());
    out.append(",\"guid\":");
    out.append(quoted_string(c.guid().as_str()).as_str());
    out.append(",\"duration\":");
    out.append(i64_to_dec(c.duration_at(now, deliver_cycle)).as_str());
    out.append(",\"metrics\":");
    let ms = c.metrics();
    let metrics_part = metrics_json_string(ms, Ghost(c@.metrics));
    out.append(metrics_part.as_str());
    out.append("}");
    proof {
        assert(out@ =~= component_json(c@, now as int, deliver_cycle as int));
    }
    out
}

} // verus!
