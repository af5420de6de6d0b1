//! Durations in configuration files: a whole number followed by a unit,
//! `ms`, `s`, `m` or `h` (no unit means milliseconds), e.g. `"5s"`.
use vstd::prelude::*;
use crate::numbers::{IntErrorKind, is_digit, parse_unsigned, parse_unsigned_decimal};
use crate::text::str_equals;

verus! {

/// Why a duration failed to parse.
#[derive(Debug, Clone, Copy, PartialEq, Eq, Structural)]
pub enum DurationError {
    /// The number part is missing or malformed
    Number(IntErrorKind),
    /// The unit is not one of `ms`, `s`, `m`, `h`
    UnknownUnit,
    /// The duration does not fit in 64-bit milliseconds
    Overflow,
}

/// Length of the longest prefix of ASCII digits.
pub open spec fn digit_prefix_len(s: Seq<char>) -> nat
    decreases s.len(),
{
    if s.len() == 0 || !is_digit(s[0]) {
        0
    } else {
        1 + digit_prefix_len(s.drop_first())
    }
}

/// Milliseconds per unit.
pub open spec fn unit_millis(u: Seq<char>) -> Option<nat> {
    if u.len() == 0 || u == "ms"@ {
        Some(1)
    } else if u == "s"@ {
        Some(1000)
    } else if u == "m"@ {
        Some(60000)
    } else if u == "h"@ {
        Some(3600000)
    } else {
        None
    }
}

/// The number of milliseconds a duration text denotes.
pub open spec fn duration_millis(s: Seq<char>) -> Result<nat, DurationError> {
    let k = digit_prefix_len(s) as int;
    match parse_unsigned(s.subrange(0, k), u64::MAX as nat) {
        Err(e) => Err(DurationError::Number(e)),
        Ok(v) => match unit_millis(s.subrange(k, s.len() as int)) {
            None => Err(DurationError::UnknownUnit),
            Some(f) => if v * f > u64::MAX { Err(DurationError::Overflow) } else { Ok(v * f) },
        },
    }
}

proof fn lemma_digit_prefix(s: Seq<char>, i: int)
    requires
        0 <= i <= digit_prefix_len(s),
    ensures
        digit_prefix_len(s) <= s.len(),
        digit_prefix_len(s.skip(i)) == digit_prefix_len(s) - i,
        forall|j: int| 0 <= j < digit_prefix_len(s) ==> is_digit(#[trigger] s[j]),
    decreases s.len(),
{
    if s.len() > 0 && is_digit(s[0]) {
        if i > 0 {
            lemma_digit_prefix(s.drop_first(), i - 1);
            assert(s.skip(i) =~= s.drop_first().skip(i - 1));
        } else {
            assert(s.skip(0) =~= s);
            lemma_digit_prefix(s.drop_first(), 0);
        }
        assert forall|j: int| 0 <= j < digit_prefix_len(s) implies is_digit(#[trigger] s[j]) by {
            if j > 0 {
                assert(s[j] == s.drop_first()[j - 1]);
            }
        }
    } else {
        assert(s.skip(0) =~= s);
    }
}

fn is_ascii_digit(c: char) -> (r: bool)
    ensures
        r == is_digit(c),
{
    '0' <= c && c <= '9'
}

/// Parses a duration text into milliseconds.
pub fn parse_duration_millis(s: &str) -> (r: Result<u64, DurationError>)
    ensures
        match duration_millis(s@) {
            Ok(v) => r == Ok::<u64, DurationError>(v as u64),
            Err(e) => r == Err::<u64, DurationError>(e),
        },
{
    let n = s.unicode_len();
    let mut k: usize = 0;
    proof { lemma_digit_prefix(s@, 0); }
    let mut more = k < n && is_ascii_digit(s.get_char(k));
    while more
        invariant
            n == s@.len(),
            k <= digit_prefix_len(s@),
            digit_prefix_len(s@) <= n,
            more == (k < n && is_digit(s@[k as int])),
        decreases n - k,
    {
        proof {
            lemma_digit_prefix(s@, k as int);
            assert(s@.skip(k as int)[0] == s@[k as int]);
        }
        k = k + 1;
        more = k < n && is_ascii_digit(s.get_char(k));
    }
    proof {
        lemma_digit_prefix(s@, k as int);
        if k < n {
            assert(s@.skip(k as int)[0] == s@[k as int]);
        }
        assert(k == digit_prefix_len(s@));
    }
    let number = s.substring_char(0, k);
    let unit = s.substring_char(k, n);
    let v = match parse_unsigned_decimal(number, u64::MAX) {
        Ok(v) => v,
        Err(e) => return Err(DurationError::Number(e)),
    };
    let factor: u64 = if unit.unicode_len() == 0 || str_equals(unit, "ms") {
        1
    } else if str_equals(unit, "s") {
        1000
    } else if str_equals(unit, "m") {
        60000
    } else if str_equals(unit, "h") {
        3600000
    } else {
        return Err(DurationError::UnknownUnit);
    };
    assert((v as u128) * (factor as u128) <= u64::MAX * 3600000) by (nonlinear_arith)
        requires v <= u64::MAX, factor <= 3600000;
    let wide: u128 = (v as u128) * (factor as u128);
    if wide > u64::MAX as u128 {
        return Err(DurationError::Overflow);
    }
    Ok(wide as u64)
}

} // verus!
