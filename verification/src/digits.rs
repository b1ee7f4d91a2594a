//! Decimal digit runs: the shared ground for the duration grammar and
//! the progress-percentage grammar.

use vstd::prelude::*;
use vstd::string::StrSliceExecFns;

verus! {

/// Whether `c` is a decimal digit.
pub open spec fn is_digit(c: char) -> bool {
    48 <= c as u32 && c as u32 <= 57
}

/// The numeric value of a digit character.
pub open spec fn digit_val(c: char) -> int {
    c as u32 - 48
}

/// The index one past the run of digits that begins at `i`.
pub open spec fn digits_end(s: Seq<char>, i: int) -> int
    decreases s.len() - i,
{
    if 0 <= i < s.len() && is_digit(s[i]) {
        digits_end(s, i + 1)
    } else {
        i
    }
}

/// The value of the digits of `s` in positions `i ..= j - 1`, read as
/// one decimal number.
pub open spec fn digits_value(s: Seq<char>, i: int, j: int) -> int
    decreases j - i,
{
    if i < j {
        digits_value(s, i, j - 1) * 10 + digit_val(s[j - 1])
    } else {
        0
    }
}

/// Everything up to `digits_end` is a digit, and the run stops at the
/// first non-digit.
pub proof fn lemma_digits_end(s: Seq<char>, i: int)
    requires
        0 <= i <= s.len(),
    ensures
        i <= digits_end(s, i) <= s.len(),
        forall|k: int| i <= k < digits_end(s, i) ==> is_digit(s[k]),
        digits_end(s, i) < s.len() ==> !is_digit(s[digits_end(s, i)]),
    decreases s.len() - i,
{
    if i < s.len() && is_digit(s[i]) {
        lemma_digits_end(s, i + 1);
    }
}

/// A run of digits has a non-negative value.
pub proof fn lemma_digits_value_nonneg(s: Seq<char>, i: int, j: int)
    requires
        forall|k: int| i <= k < j ==> is_digit(s[k]),
    ensures
        digits_value(s, i, j) >= 0,
    decreases j - i,
{
    if i < j {
        lemma_digits_value_nonneg(s, i, j - 1);
    }
}

/// Scan the run of digits of `s` that begins at `from`.  Returns the
/// index one past the run and the run's value; when the value does not
/// fit in `u32` the overflow flag is set instead.
pub fn scan_digits(s: &str, from: usize, n: usize) -> (r: (usize, u32, bool))
    requires
        n == s@.len(),
        from <= n,
    ensures
        ({
            let (end, v, over) = r;
            &&& end == digits_end(s@, from as int)
            &&& from <= end <= n
            &&& (!over ==> v == digits_value(s@, from as int, end as int))
            &&& (over ==> digits_value(s@, from as int, end as int) > u32::MAX)
        }),
{
    let mut i: usize = from;
    let mut v: u32 = 0;
    let mut over: bool = false;
    loop
        invariant
            n == s@.len(),
            from <= i <= n,
            digits_end(s@, i as int) == digits_end(s@, from as int),
            forall|k: int| from <= k < i ==> is_digit(s@[k]),
            !over ==> v == digits_value(s@, from as int, i as int),
            over ==> digits_value(s@, from as int, i as int) > u32::MAX,
            digits_value(s@, from as int, i as int) >= 0,
        decreases n - i,
    {
        if i >= n {
            proof {
                assert(digits_end(s@, i as int) == i);
            }
            return (i, v, over);
        }
        let c = s.get_char(i);
        let u = c as u32;
        if u < 48 || u > 57 {
            proof {
                assert(digits_end(s@, i as int) == i);
            }
            return (i, v, over);
        }
        let d = u - 48;
        proof {
            assert(digits_value(s@, from as int, i + 1) == digits_value(s@, from as int, i as int)
                * 10 + digit_val(s@[i as int]));
        }
        if !over {
            let w = v as u64 * 10 + d as u64;
            if w > u32::MAX as u64 {
                over = true;
                v = 0;
            } else {
                v = w as u32;
            }
        }
        i = i + 1;
    }
}

} // verus!
