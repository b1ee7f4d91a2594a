//! The platform's duration encoding and its human-readable form.
//!
//! The enrichment call reports each item's length in a marker-delimited
//! notation: the prefix `PT`, then an optional run of digits ending in
//! `H`, one ending in `M`, and one ending in `S`, in that order, each
//! component optional (`PT` alone encodes zero seconds).  The UI shows
//! it as `hours:minutes:seconds` with leading zero components omitted,
//! e.g. `PT1H2M3S` becomes `1:02:03` and `PT21S` becomes `21`.

use crate::digits::{digits_end, digits_value, scan_digits};
use vstd::prelude::*;
use vstd::string::{StrSliceExecFns, StringExecFns};

verus! {

/// Whether a component with the given end `marker` begins at `i`.
pub open spec fn comp_present(s: Seq<char>, i: int, marker: char) -> bool {
    &&& digits_end(s, i) > i
    &&& digits_end(s, i) < s.len()
    &&& s[digits_end(s, i)] == marker
}

/// The index one past the component that begins at `i`, or `i` itself
/// when the component is absent.
pub open spec fn comp_end(s: Seq<char>, i: int, marker: char) -> int {
    if comp_present(s, i, marker) {
        digits_end(s, i) + 1
    } else {
        i
    }
}

/// The component's value; absent components count as zero.
pub open spec fn comp_value(s: Seq<char>, i: int, marker: char) -> int {
    if comp_present(s, i, marker) {
        digits_value(s, i, digits_end(s, i))
    } else {
        0
    }
}

/// Where the minutes component would begin.
pub open spec fn minutes_start(s: Seq<char>) -> int {
    comp_end(s, 2, 'H')
}

/// Where the seconds component would begin.
pub open spec fn seconds_start(s: Seq<char>) -> int {
    comp_end(s, minutes_start(s), 'M')
}

/// The index one past the last component.
pub open spec fn duration_end(s: Seq<char>) -> int {
    comp_end(s, seconds_start(s), 'S')
}

/// A well-formed duration encoding: the `PT` prefix followed by the
/// optional hour, minute and second components and nothing else.
pub open spec fn duration_wf(s: Seq<char>) -> bool {
    &&& s.len() >= 2
    &&& s[0] == 'P'
    &&& s[1] == 'T'
    &&& duration_end(s) == s.len()
}

/// The encoded hours.
pub open spec fn duration_hours(s: Seq<char>) -> int {
    comp_value(s, 2, 'H')
}

/// The encoded minutes.
pub open spec fn duration_minutes(s: Seq<char>) -> int {
    comp_value(s, minutes_start(s), 'M')
}

/// The encoded seconds.
pub open spec fn duration_seconds(s: Seq<char>) -> int {
    comp_value(s, seconds_start(s), 'S')
}

/// The three components of a parsed duration encoding.
#[derive(Clone, Copy, Debug, PartialEq, Eq, Structural)]
pub struct DurationParts {
    pub hours: u32,
    pub minutes: u32,
    pub seconds: u32,
}

/// Scan one optional component.  Returns the index one past it, its
/// value, and whether the value exceeds `u32`.
fn scan_component(s: &str, from: usize, n: usize, marker: char) -> (r: (usize, u32, bool))
    requires
        n == s@.len(),
        from <= n,
    ensures
        ({
            let (end, v, over) = r;
            &&& end == comp_end(s@, from as int, marker)
            &&& from <= end <= n
            &&& (!over ==> v == comp_value(s@, from as int, marker))
            &&& (over ==> comp_value(s@, from as int, marker) > u32::MAX)
        }),
{
    let (de, v, over) = scan_digits(s, from, n);
    if de > from && de < n && s.get_char(de) == marker {
        (de + 1, v, over)
    } else {
        (from, 0, false)
    }
}

/// Parse a duration encoding.  Yields the components exactly when the
/// encoding is well-formed and each component fits in `u32`.
pub fn parse_duration(s: &str) -> (r: Option<DurationParts>)
    ensures
        r is Some <==> (duration_wf(s@) && duration_hours(s@) <= u32::MAX && duration_minutes(s@)
            <= u32::MAX && duration_seconds(s@) <= u32::MAX),
        r matches Some(d) ==> d.hours == duration_hours(s@) && d.minutes == duration_minutes(s@)
            && d.seconds == duration_seconds(s@),
{
    let n = s.unicode_len();
    if n < 2 {
        return None;
    }
    if s.get_char(0) != 'P' || s.get_char(1) != 'T' {
        return None;
    }
    let (m_start, hv, h_over) = scan_component(s, 2, n, 'H');
    let (s_start, mv, m_over) = scan_component(s, m_start, n, 'M');
    let (end, sv, s_over) = scan_component(s, s_start, n, 'S');
    if end != n {
        return None;
    }
    if h_over || m_over || s_over {
        return None;
    }
    Some(DurationParts { hours: hv, minutes: mv, seconds: sv })
}

/// The decimal digits of `n`, most significant first.
pub open spec fn spec_dec(n: int) -> Seq<char>
    decreases n,
{
    if n <= 9 {
        seq![digit_char(n)]
    } else {
        spec_dec(n / 10).push(digit_char(n % 10))
    }
}

/// The decimal digits of `n`, widened to two places with a leading zero.
pub open spec fn spec_pad2(n: int) -> Seq<char> {
    if n <= 9 {
        seq!['0'] + spec_dec(n)
    } else {
        spec_dec(n)
    }
}

/// The character for one digit value.
pub open spec fn digit_char(d: int) -> char {
    if d == 0 {
        '0'
    } else if d == 1 {
        '1'
    } else if d == 2 {
        '2'
    } else if d == 3 {
        '3'
    } else if d == 4 {
        '4'
    } else if d == 5 {
        '5'
    } else if d == 6 {
        '6'
    } else if d == 7 {
        '7'
    } else if d == 8 {
        '8'
    } else {
        '9'
    }
}

/// The compact human-readable form of a duration: leading zero
/// components are omitted, inner components are two digits wide.
pub open spec fn spec_format_duration(h: int, m: int, s: int) -> Seq<char> {
    if h > 0 {
        spec_dec(h) + seq![':'] + spec_pad2(m) + seq![':'] + spec_pad2(s)
    } else if m > 0 {
        spec_dec(m) + seq![':'] + spec_pad2(s)
    } else {
        spec_dec(s)
    }
}

/// The one-character string for a digit value.
fn digit_str(d: u32) -> (r: &'static str)
    requires
        d <= 9,
    ensures
        r@ == seq![digit_char(d as int)],
{
    proof {
        reveal_strlit("0");
        reveal_strlit("1");
        reveal_strlit("2");
        reveal_strlit("3");
        reveal_strlit("4");
        reveal_strlit("5");
        reveal_strlit("6");
        reveal_strlit("7");
        reveal_strlit("8");
        reveal_strlit("9");
    }
    match d {
        0 => "0",
        1 => "1",
        2 => "2",
        3 => "3",
        4 => "4",
        5 => "5",
        6 => "6",
        7 => "7",
        8 => "8",
        _ => "9",
    }
}

/// `n` written in decimal.
pub fn u32_dec(n: u32) -> (r: String)
    ensures
        r@ == spec_dec(n as int),
    decreases n,
{
    if n <= 9 {
        String::from_str(digit_str(n))
    } else {
        let mut prefix = u32_dec(n / 10);
        prefix.append(digit_str(n % 10));
        proof {
            assert(prefix@ =~= spec_dec(n as int));
        }
        prefix
    }
}

/// `n` written in decimal, at least two digits wide.
fn u32_pad2(n: u32) -> (r: String)
    ensures
        r@ == spec_pad2(n as int),
{
    if n <= 9 {
        let mut r = String::from_str("0");
        r.append(digit_str(n));
        proof {
            reveal_strlit("0");
            assert(r@ =~= spec_pad2(n as int));
        }
        r
    } else {
        u32_dec(n)
    }
}

/// Render parsed components in the compact human-readable form.
pub fn format_duration(d: &DurationParts) -> (r: String)
    ensures
        r@ == spec_format_duration(d.hours as int, d.minutes as int, d.seconds as int),
{
    proof {
        reveal_strlit(":");
    }
    if d.hours > 0 {
        let mut r = u32_dec(d.hours);
        r.append(":");
        let mm = u32_pad2(d.minutes);
        r.append(mm.as_str());
        r.append(":");
        let ss = u32_pad2(d.seconds);
        r.append(ss.as_str());
        proof {
            assert(r@ =~= spec_format_duration(
                d.hours as int,
                d.minutes as int,
                d.seconds as int,
            ));
        }
        r
    } else if d.minutes > 0 {
        let mut r = u32_dec(d.minutes);
        r.append(":");
        let ss = u32_pad2(d.seconds);
        r.append(ss.as_str());
        proof {
            assert(r@ =~= spec_format_duration(
                d.hours as int,
                d.minutes as int,
                d.seconds as int,
            ));
        }
        r
    } else {
        u32_dec(d.seconds)
    }
}

/// What reformatting an encoding yields, at the level of views.
pub open spec fn spec_reformat(s: Seq<char>) -> Seq<char> {
    spec_format_duration(duration_hours(s), duration_minutes(s), duration_seconds(s))
}

/// Reformat the platform's duration encoding into the compact
/// human-readable form; malformed encodings are rejected, not guessed
/// at.
pub fn reformat_duration(s: &str) -> (r: Option<String>)
    ensures
        r is Some <==> (duration_wf(s@) && duration_hours(s@) <= u32::MAX && duration_minutes(s@)
            <= u32::MAX && duration_seconds(s@) <= u32::MAX),
        r matches Some(t) ==> t@ == spec_reformat(s@),
{
    match parse_duration(s) {
        None => None,
        Some(d) => Some(format_duration(&d)),
    }
}

/// Reformatting is a pure function of the encoded component values:
/// any two well-formed encodings of the same hours, minutes and
/// seconds reformat to the same text.
pub proof fn lemma_reformat_pure(a: Seq<char>, b: Seq<char>)
    requires
        duration_wf(a),
        duration_wf(b),
        duration_hours(a) == duration_hours(b),
        duration_minutes(a) == duration_minutes(b),
        duration_seconds(a) == duration_seconds(b),
    ensures
        spec_reformat(a) == spec_reformat(b),
{
}

} // verus!
