//! Reading the alarm threshold from text.
//!
//! A threshold is written as an unsigned decimal number: one or more digits
//! `0` to `9`, with at most one `+` in front, whose value fits in 64 bits.
//! Nothing else is accepted: no sign alone, no `-`, no blanks, no separators.

use vstd::prelude::*;
use vstd::string::*;

verus! {

/// True for the ten decimal digits.
pub open spec fn is_decimal_digit(c: char) -> bool {
    '0' <= c <= '9'
}

/// The number that a digit stands for; zero for any other character.
pub open spec fn digit_value(c: char) -> nat {
    if is_decimal_digit(c) {
        (c as int - '0' as int) as nat
    } else {
        0
    }
}

/// True when every character of `text` is a decimal digit.
pub open spec fn all_decimal_digits(text: Seq<char>) -> bool {
    forall|i: int| 0 <= i < text.len() ==> is_decimal_digit(#[trigger] text[i])
}

/// The number that a run of digits denotes, the most significant digit first.
pub open spec fn decimal_value(digits: Seq<char>) -> nat
    decreases digits.len(),
{
    if digits.len() == 0 {
        0
    } else {
        10 * decimal_value(digits.drop_last()) + digit_value(digits.last())
    }
}

/// The text without the one `+` that may stand in front of the digits.
pub open spec fn without_plus(text: Seq<char>) -> Seq<char> {
    if text.len() > 0 && text[0] == '+' {
        text.skip(1)
    } else {
        text
    }
}

/// The threshold that `text` denotes, or `None` where it denotes none.
pub open spec fn threshold_of(text: Seq<char>) -> Option<u64> {
    let digits = without_plus(text);
    if digits.len() > 0 && all_decimal_digits(digits) && decimal_value(digits) <= u64::MAX {
        Some(decimal_value(digits) as u64)
    } else {
        None
    }
}

/// A longer run of digits never denotes less than one of its beginnings.
proof fn lemma_decimal_value_grows(digits: Seq<char>, n: int)
    requires
        0 <= n <= digits.len(),
    ensures
        decimal_value(digits.take(n)) <= decimal_value(digits),
    decreases digits.len(),
{
    if n == digits.len() {
        assert(digits.take(n) == digits);
    } else {
        lemma_decimal_value_grows(digits.drop_last(), n);
        assert(digits.drop_last().take(n) == digits.take(n));
    }
}

/// The value of the first `n + 1` digits, from that of the first `n`.
proof fn lemma_decimal_value_step(digits: Seq<char>, n: int)
    requires
        0 <= n < digits.len(),
    ensures
        decimal_value(digits.take(n + 1)) == 10 * decimal_value(digits.take(n)) + digit_value(
            digits[n],
        ),
{
    assert(digits.take(n + 1).drop_last() == digits.take(n));
}

/// Reads a threshold: `Some` with its value where `text` is an unsigned
/// decimal number that fits in 64 bits, `None` for every other text.
pub fn parse_threshold(text: &str) -> (parsed: Option<u64>)
    ensures
        parsed == threshold_of(text@),
{
    broadcast use is_ascii_spec_bytes;

    if !text.is_ascii() {
        proof {
            let i = choose|i: int|
                0 <= i < text@.len() && !('\0' <= #[trigger] text@[i] <= '\u{7f}');
            let digits = without_plus(text@);
            if text@[0] == '+' {
                assert(digits[i - 1] == text@[i]);
                assert(!is_decimal_digit(digits[i - 1]));
            } else {
                assert(!is_decimal_digit(digits[i]));
            }
        }
        return None;
    }
    let bytes = text.as_bytes();
    let n = bytes.len();
    let start: usize = if n > 0 && bytes[0] == 43u8 {
        1
    } else {
        0
    };
    let ghost digits = without_plus(text@);
    assert(digits == text@.skip(start as int));
    if start == n {
        return None;
    }
    let mut value: u64 = 0;
    let mut i: usize = start;
    while i < n
        invariant
            start <= i <= n,
            n == text@.len(),
            bytes@ == text.spec_bytes(),
            is_ascii(text),
            digits == text@.skip(start as int),
            digits == without_plus(text@),
            all_decimal_digits(digits.take(i - start)),
            value == decimal_value(digits.take(i - start)),
        decreases n - i,
    {
        let byte = bytes[i];
        let ghost k = i - start;
        assert(digits[k] == text@[i as int]);
        assert(byte == text@[i as int] as u8);
        if byte < 48u8 || byte > 57u8 {
            assert(!is_decimal_digit(digits[k]));
            return None;
        }
        assert(is_decimal_digit(digits[k]));
        let digit: u64 = (byte - 48u8) as u64;
        assert(digit == digit_value(digits[k]));
        proof {
            lemma_decimal_value_step(digits, k);
            lemma_decimal_value_grows(digits, k + 1);
        }
        let shifted = match value.checked_mul(10) {
            Some(shifted) => shifted,
            None => {
                return None;
            },
        };
        value = match shifted.checked_add(digit) {
            Some(sum) => sum,
            None => {
                return None;
            },
        };
        i = i + 1;
        assert(all_decimal_digits(digits.take(i - start))) by {
            assert forall|j: int| 0 <= j < i - start implies is_decimal_digit(
                #[trigger] digits.take(i - start)[j],
            ) by {
                if j < k {
                    assert(digits.take(k)[j] == digits[j]);
                }
            }
        }
    }
    assert(digits.take(i - start) == digits);
    Some(value)
}

} // verus!
