//! Progress events from the downloader's output stream.
//!
//! Each line of standard output is, when meaningful, a JSON object
//! whose `_percent_str` field carries text like ` 42.3%`.  A line that
//! is not JSON, has no such field, or whose field does not read as a
//! percentage yields no event — noise is skipped, never an error.

use crate::digits::{digit_val, digits_end, digits_value, lemma_digits_end,
    lemma_digits_value_nonneg, scan_digits};
use crate::json::{json_document, percent_field, percent_text};
use vstd::prelude::*;
use vstd::string::StrSliceExecFns;

verus! {

/// `s` with its leading spaces removed.
pub open spec fn trim_front(s: Seq<char>) -> Seq<char>
    decreases s.len(),
{
    if s.len() > 0 && s[0] == ' ' {
        trim_front(s.drop_first())
    } else {
        s
    }
}

/// `s` with its trailing spaces removed.
pub open spec fn trim_back(s: Seq<char>) -> Seq<char>
    decreases s.len(),
{
    if s.len() > 0 && s.last() == ' ' {
        trim_back(s.drop_last())
    } else {
        s
    }
}

/// `s` with spaces removed from both ends.
pub open spec fn spec_trimmed(s: Seq<char>) -> Seq<char> {
    trim_back(trim_front(s))
}

proof fn lemma_trim_front_skip(s: Seq<char>, lo: int)
    requires
        0 <= lo <= s.len(),
        forall|k: int| 0 <= k < lo ==> s[k] == ' ',
        lo == s.len() || s[lo] != ' ',
    ensures
        trim_front(s) == s.subrange(lo, s.len() as int),
    decreases lo,
{
    if lo == 0 {
        assert(trim_front(s) =~= s.subrange(0, s.len() as int));
    } else {
        let t = s.drop_first();
        assert(forall|k: int| 0 <= k < lo - 1 ==> t[k] == ' ');
        lemma_trim_front_skip(t, lo - 1);
        assert(t.subrange(lo - 1, t.len() as int) =~= s.subrange(lo, s.len() as int));
    }
}

proof fn lemma_trim_back_skip(s: Seq<char>, hi: int)
    requires
        0 <= hi <= s.len(),
        forall|k: int| hi <= k < s.len() ==> s[k] == ' ',
        hi == 0 || s[hi - 1] != ' ',
    ensures
        trim_back(s) == s.subrange(0, hi),
    decreases s.len(),
{
    if hi == s.len() {
        assert(trim_back(s) =~= s.subrange(0, hi));
    } else {
        let t = s.drop_last();
        assert(forall|k: int| hi <= k < t.len() ==> t[k] == ' ');
        lemma_trim_back_skip(t, hi);
    }
}

/// The part of `s` that remains after trimming spaces at both ends.
fn trimmed_slice<'a>(s: &'a str) -> (t: &'a str)
    ensures
        t@ == spec_trimmed(s@),
{
    let n = s.unicode_len();
    let mut lo: usize = 0;
    while lo < n && s.get_char(lo) == ' '
        invariant
            lo <= n,
            n == s@.len(),
            forall|k: int| 0 <= k < lo ==> s@[k] == ' ',
        decreases n - lo,
    {
        lo = lo + 1;
    }
    let mut hi: usize = n;
    while hi > lo && s.get_char(hi - 1) == ' '
        invariant
            lo <= hi <= n,
            n == s@.len(),
            forall|k: int| hi <= k < n ==> s@[k] == ' ',
        decreases hi,
    {
        hi = hi - 1;
    }
    proof {
        lemma_trim_front_skip(s@, lo as int);
        let u = s@.subrange(lo as int, n as int);
        assert(hi - lo == 0 || u[hi - lo - 1] != ' ');
        lemma_trim_back_skip(u, hi - lo);
        assert(u.subrange(0, hi - lo) =~= s@.subrange(lo as int, hi as int));
    }
    s.substring_char(lo, hi)
}

/// A well-formed percentage: an optional minus sign, digits, an
/// optional fraction, and the percent sign.
pub open spec fn percent_core_wf(t: Seq<char>) -> bool {
    let i0: int = if t.len() > 0 && t[0] == '-' {
        1
    } else {
        0
    };
    let e = digits_end(t, i0);
    &&& t.len() >= 2
    &&& t.last() == '%'
    &&& e > i0
    &&& (e == t.len() - 1 || (t[e] == '.' && t.len() - 1 > e + 1 && digits_end(t, e + 1) == t.len()
        - 1))
}

/// The percentage in tenths of a percent, clamped into 0 ..= 1000;
/// fraction digits beyond the first are ignored.
pub open spec fn percent_core_tenths(t: Seq<char>) -> int {
    if t.len() > 0 && t[0] == '-' {
        0
    } else {
        let e = digits_end(t, 0);
        let ip = digits_value(t, 0, e);
        let frac = if e == t.len() - 1 {
            0int
        } else {
            digit_val(t[e + 1])
        };
        let raw = ip * 10 + frac;
        if raw > 1000 {
            1000
        } else {
            raw
        }
    }
}

/// What parsing a percentage string yields, after trimming spaces.
pub open spec fn spec_parse_percent(s: Seq<char>) -> Option<u32> {
    if percent_core_wf(spec_trimmed(s)) {
        Some(percent_core_tenths(spec_trimmed(s)) as u32)
    } else {
        None
    }
}

/// Parse a percentage with the exact grammar above.
fn parse_percent_trimmed(t: &str) -> (r: Option<u32>)
    ensures
        r is Some <==> percent_core_wf(t@),
        r matches Some(p) ==> p == percent_core_tenths(t@) && p <= 1000,
{
    let m = t.unicode_len();
    if m < 2 {
        return None;
    }
    if t.get_char(m - 1) != '%' {
        return None;
    }
    let i0: usize = if t.get_char(0) == '-' {
        1
    } else {
        0
    };
    let (e, v, over) = scan_digits(t, i0, m);
    proof {
        lemma_digits_end(t@, i0 as int);
    }
    if e <= i0 {
        return None;
    }
    let frac: u32;
    if e == m - 1 {
        frac = 0;
    } else {
        if t.get_char(e) != '.' {
            return None;
        }
        if e + 1 >= m - 1 {
            return None;
        }
        let (e2, _, _) = scan_digits(t, e + 1, m);
        if e2 != m - 1 {
            return None;
        }
        proof {
            lemma_digits_end(t@, e + 1);
        }
        let c = t.get_char(e + 1);
        frac = c as u32 - 48;
    }
    if i0 == 1 {
        return Some(0);
    }
    proof {
        lemma_digits_value_nonneg(t@, 0, e as int);
    }
    if over {
        return Some(1000);
    }
    if v > 100 {
        return Some(1000);
    }
    let raw = v * 10 + frac;
    if raw > 1000 {
        Some(1000)
    } else {
        Some(raw)
    }
}

/// Parse a percentage, tolerating spaces at either end.  Values above
/// one hundred percent clamp to one hundred, negative ones to zero.
pub fn parse_percent(s: &str) -> (r: Option<u32>)
    ensures
        r == spec_parse_percent(s@),
        r matches Some(p) ==> p <= 1000,
{
    let t = trimmed_slice(s);
    parse_percent_trimmed(t)
}

/// A structured progress signal: completion in tenths of a percent.
#[derive(Clone, Copy, Debug, PartialEq, Eq, Structural)]
pub struct ProgressEvent {
    pub percent_tenths: u32,
}

/// The event a line of downloader output carries: its `_percent_str`
/// field's text, read as a percentage.
pub open spec fn spec_parse_line(line: Seq<char>) -> Option<ProgressEvent> {
    match percent_text(line) {
        Some(t) => match spec_parse_percent(t) {
            Some(p) => Some(ProgressEvent { percent_tenths: p }),
            None => None,
        },
        None => None,
    }
}

/// Extract the progress event, if any, from one line of downloader
/// output.  A line that is not a JSON document yields no event, and no
/// line is ever an error.
pub fn parse_line(line: &str) -> (r: Option<ProgressEvent>)
    ensures
        r == spec_parse_line(line@),
        r matches Some(e) ==> e.percent_tenths <= 1000,
        r is Some ==> json_document(line@),
        !json_document(line@) ==> r is None,
{
    match percent_field(line) {
        None => None,
        Some(ps) => match parse_percent(ps.as_str()) {
            None => None,
            Some(tenths) => Some(ProgressEvent { percent_tenths: tenths }),
        },
    }
}

/// Noise yields no event: a line with no percentage field — no JSON
/// document among them — or whose field text is no percentage parses
/// to nothing.
pub proof fn lemma_noise_yields_no_event(line: Seq<char>)
    requires
        percent_text(line) is None || (percent_text(line) matches Some(t) && spec_parse_percent(t)
            is None),
    ensures
        spec_parse_line(line) is None,
{
}

} // verus!
