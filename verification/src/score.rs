//! Parsing of the operator-typed score line: trim the line, accept an
//! optional leading `+` followed by decimal digits that fit in 32 bits, and
//! fall back to 0 on anything unparsable rather than aborting the run.

use crate::text::{spec_trim, trim_ascii};
use vstd::prelude::*;

verus! {

broadcast use vstd::utf8::group_utf8_lib;

/// An ASCII decimal digit.
pub open spec fn spec_is_digit(c: char) -> bool {
    48 <= c as u32 <= 57
}

/// The numeric value of an ASCII decimal digit.
pub open spec fn spec_digit_val(c: char) -> int {
    c as u32 - 48
}

/// A nonempty string of ASCII decimal digits.
pub open spec fn spec_all_digits(s: Seq<char>) -> bool {
    s.len() > 0 && forall|i: int| 0 <= i < s.len() ==> spec_is_digit(s[i])
}

/// The value of a digit string read in base 10.
pub open spec fn spec_digits_value(s: Seq<char>) -> int
    decreases s.len(),
{
    if s.len() == 0 {
        0
    } else {
        spec_digits_value(s.drop_last()) * 10 + spec_digit_val(s.last())
    }
}

/// An unsigned 32-bit integer read from a string: an optional leading `+`,
/// then one or more decimal digits whose value fits in 32 bits; anything
/// else reads as nothing.
pub open spec fn spec_parse_u32(s: Seq<char>) -> Option<u32> {
    let digits = if s.len() > 0 && s[0] == '+' {
        s.drop_first()
    } else {
        s
    };
    if spec_all_digits(digits) && spec_digits_value(digits) <= u32::MAX {
        Some(spec_digits_value(digits) as u32)
    } else {
        None
    }
}

/// The score read from an operator-typed line: the line is trimmed and read
/// as an unsigned 32-bit integer, with 0 for any unparsable input.
pub open spec fn spec_parse_score(line: Seq<char>) -> u32 {
    match spec_parse_u32(spec_trim(line)) {
        Some(v) => v,
        None => 0,
    }
}

proof fn lemma_digits_value_nonneg(s: Seq<char>)
    requires
        forall|i: int| 0 <= i < s.len() ==> spec_is_digit(s[i]),
    ensures
        spec_digits_value(s) >= 0,
    decreases s.len(),
{
    if s.len() > 0 {
        lemma_digits_value_nonneg(s.drop_last());
    }
}

/// Appending further digits to a digit string never lowers its value.
proof fn lemma_digits_value_extend(s: Seq<char>, j: int)
    requires
        0 <= j <= s.len(),
        forall|i: int| 0 <= i < s.len() ==> spec_is_digit(s[i]),
    ensures
        spec_digits_value(s) >= spec_digits_value(s.subrange(0, j)),
    decreases s.len() - j,
{
    if j == s.len() {
        assert(s.subrange(0, j) =~= s);
    } else {
        lemma_digits_value_extend(s, j + 1);
        let longer = s.subrange(0, j + 1);
        assert(longer.drop_last() =~= s.subrange(0, j));
        assert(forall|i: int| 0 <= i < longer.len() ==> spec_is_digit(longer[i]));
        lemma_digits_value_nonneg(s.subrange(0, j));
        assert(spec_digits_value(longer) == spec_digits_value(s.subrange(0, j)) * 10
            + spec_digit_val(s[j]));
    }
}

/// Read a score from an operator-typed line; unparsable input reads as 0.
pub fn parse_score(line: &str) -> (r: u32)
    ensures
        r == spec_parse_score(line@),
{
    let t = trim_ascii(line);
    let ts = t.as_str();
    let n = ts.unicode_len();
    proof {
        assert('+' as u32 == 43);
    }
    let start: usize = if n > 0 && (ts.get_char(0) as u32) == 43 {
        1
    } else {
        0
    };
    let ghost digits: Seq<char> = ts@.subrange(start as int, n as int);
    proof {
        if start == 1 {
            assert(ts@.drop_first() =~= digits);
        } else {
            assert(ts@ =~= digits);
        }
    }
    if start >= n {
        return 0;
    }
    let mut acc: u32 = 0;
    let mut i: usize = start;
    while i < n
        invariant
            start <= 1,
            start <= i <= n,
            start < n,
            n == ts@.len(),
            ts@ == spec_trim(line@),
            digits == ts@.subrange(start as int, n as int),
            (start == 1) == (ts@.len() > 0 && ts@[0] == '+'),
            forall|k: int| start <= k < i ==> spec_is_digit(ts@[k]),
            acc == spec_digits_value(ts@.subrange(start as int, i as int)),
        decreases n - i,
    {
        let u: u32 = ts.get_char(i) as u32;
        if u < 48 || 57 < u {
            proof {
                assert(digits[i - start as int] == ts@[i as int]);
                assert(!spec_all_digits(digits));
            }
            return 0;
        }
        let d: u32 = u - 48;
        let ghost prefix = ts@.subrange(start as int, i as int);
        let ghost longer = ts@.subrange(start as int, i + 1 as int);
        proof {
            assert(longer.drop_last() =~= prefix);
            assert(spec_digits_value(longer) == spec_digits_value(prefix) * 10 + d);
        }
        if acc > (u32::MAX - d) / 10 {
            proof {
                if start == 1 {
                    assert(ts@.drop_first() =~= digits);
                } else {
                    assert(ts@ =~= digits);
                }
                assert(acc * 10 + d > u32::MAX) by (nonlinear_arith)
                    requires
                        acc > (u32::MAX - d) / 10,
                        d <= 9,
                ;
                if spec_all_digits(digits) {
                    assert(forall|k: int|
                        0 <= k < digits.len() ==> spec_is_digit(#[trigger] digits[k]));
                    assert(forall|k: int|
                        start <= k < n ==> spec_is_digit(#[trigger] ts@[k])) by {
                        assert(forall|k: int|
                            start <= k < n ==> ts@[k] == digits[k - start]);
                    }
                    lemma_digits_value_extend(digits, (i + 1 - start) as int);
                    assert(digits.subrange(0, (i + 1 - start) as int) =~= longer);
                    assert(spec_digits_value(digits) > u32::MAX);
                }
            }
            return 0;
        }
        acc = acc * 10 + d;
        i = i + 1;
    }
    proof {
        if start == 1 {
            assert(ts@.drop_first() =~= digits);
        } else {
            assert(ts@ =~= digits);
        }
        assert(ts@.subrange(start as int, n as int) =~= digits);
        assert(spec_all_digits(digits));
        assert(spec_digits_value(digits) == acc);
    }
    acc
}

} // verus!
