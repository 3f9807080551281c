//! Reading an integer from its decimal digits.
//!
//! A host whose integers can be of any size hands them over as decimal text.
//! The bridge carries 64-bit integers, so the text is read here, and what
//! does not fit is read as zero.

use vstd::prelude::*;

verus! {

/// Whether `c` is one of the digits `0` to `9`.
pub open spec fn is_digit(c: char) -> bool {
    48 <= c as u32 <= 57
}

/// The value of the digit `c`.
pub open spec fn digit_value(c: char) -> int {
    c as u32 - 48
}

/// Whether every character of `s` is a digit.
pub open spec fn all_digits(s: Seq<char>) -> bool {
    forall|i: int| 0 <= i < s.len() ==> is_digit(#[trigger] s[i])
}

/// The number that the digits `s` write, the first digit counting most.
pub open spec fn digits_value(s: Seq<char>) -> int
    decreases s.len(),
{
    if s.len() == 0 {
        0
    } else {
        10 * digits_value(s.drop_last()) + digit_value(s.last())
    }
}

/// The integer that `s` writes in decimal: an optional sign, `-` or `+`,
/// then one digit or more. `None` where `s` is not of that form.
pub open spec fn decimal_value(s: Seq<char>) -> Option<int> {
    if s.len() >= 1 && (s[0] == '-' || s[0] == '+') {
        let digits = s.skip(1);
        if digits.len() >= 1 && all_digits(digits) {
            Some(
                if s[0] == '-' {
                    -digits_value(digits)
                } else {
                    digits_value(digits)
                },
            )
        } else {
            None
        }
    } else if s.len() >= 1 && all_digits(s) {
        Some(digits_value(s))
    } else {
        None
    }
}

/// The 64-bit integer that `s` is read as: the integer that it writes where
/// it writes one that fits, and zero otherwise.
pub open spec fn integer_of_decimal(s: Seq<char>) -> int {
    match decimal_value(s) {
        Some(v) => if i64::MIN <= v <= i64::MAX {
            v
        } else {
            0
        },
        None => 0,
    }
}

/// Digits never write a negative number.
proof fn lemma_digits_value_is_natural(s: Seq<char>)
    requires
        all_digits(s),
    ensures
        digits_value(s) >= 0,
    decreases s.len(),
{
    if s.len() > 0 {
        assert(is_digit(s[s.len() - 1]));
        assert forall|i: int| 0 <= i < s.drop_last().len() implies is_digit(#[trigger] s.drop_last()[i]) by {
            assert(s.drop_last()[i] == s[i]);
        }
        lemma_digits_value_is_natural(s.drop_last());
    }
}

/// More digits never write a smaller number.
proof fn lemma_digits_value_grows(s: Seq<char>, k: int)
    requires
        all_digits(s),
        0 <= k <= s.len(),
    ensures
        digits_value(s.take(k)) <= digits_value(s),
    decreases s.len() - k,
{
    if k == s.len() {
        assert(s.take(k) =~= s);
    } else {
        let front = s.drop_last();
        assert(is_digit(s[s.len() - 1]));
        assert forall|i: int| 0 <= i < front.len() implies is_digit(#[trigger] front[i]) by {
            assert(front[i] == s[i]);
        }
        lemma_digits_value_grows(front, k);
        assert(front.take(k) =~= s.take(k));
        lemma_digits_value_is_natural(front);
    }
}

/// Reads a 64-bit integer from its decimal text: an optional sign, `-` or
/// `+`, then one digit or more. A text of another form, and a text that
/// writes an integer that does not fit in 64 bits, is read as zero.
#[verifier::loop_isolation(false)]
pub fn integer_from_decimal(text: &str) -> (r: i64)
    ensures
        r == integer_of_decimal(text@),
{
    let n = text.unicode_len();
    if n == 0 {
        return 0;
    }
    let first = text.get_char(0);
    let negative = first == '-';
    let start: usize = if first == '-' || first == '+' {
        1
    } else {
        0
    };
    if start == n {
        return 0;
    }
    let ghost digits = text@.skip(start as int);
    proof {
        if start == 0 {
            assert(digits =~= text@);
        }
    }
    let mut below: i64 = 0;
    let mut i: usize = start;
    while i < n
        invariant
            start <= i <= n,
            n == text@.len(),
            digits == text@.skip(start as int),
            all_digits(digits.take(i - start)),
            below == -digits_value(digits.take(i - start)),
            below <= 0,
        decreases n - i,
    {
        let c = text.get_char(i);
        let code = c as u32;
        if code < 48 || code > 57 {
            proof {
                assert(digits[i - start] == c);
                assert(!is_digit(digits[i - start]));
            }
            return 0;
        }
        let d: i64 = (code - 48) as i64;
        proof {
            let before = digits.take(i - start);
            let after = digits.take(i - start + 1);
            assert(after.drop_last() =~= before);
            assert(after.last() == c);
            assert(digit_value(c) == d);
            assert(digits_value(after) == 10 * digits_value(before) + d);
            lemma_digits_value_is_natural(before);
            assert forall|k: int| 0 <= k < after.len() implies is_digit(#[trigger] after[k]) by {
                if k < before.len() {
                    assert(after[k] == before[k]);
                }
            }
        }
        if below < -922337203685477580 || (below == -922337203685477580 && d > 8) {
            proof {
                let after = digits.take(i - start + 1);
                assert(digits_value(after) > 0x8000_0000_0000_0000);
                if all_digits(digits) {
                    lemma_digits_value_grows(digits, i - start + 1);
                    assert(digits_value(digits) > 0x8000_0000_0000_0000);
                }
            }
            return 0;
        }
        below = below * 10 - d;
        i += 1;
    }
    proof {
        assert(digits.take(n - start) =~= digits);
        assert(all_digits(digits));
        assert(digits.len() >= 1);
    }
    if negative {
        below
    } else if below == i64::MIN {
        0
    } else {
        -below
    }
}

} // verus!
