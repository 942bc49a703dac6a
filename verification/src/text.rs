//! Small helpers on strings, stated over their characters.

use vstd::prelude::*;

verus! {

/// The characters of an optional string.
pub open spec fn opt_text(value: Option<String>) -> Option<Seq<char>> {
    match value {
        Some(text) => Some(text@),
        None => None,
    }
}

/// The characters of an optional string, or `default` where there is none.
pub open spec fn text_or(value: Option<String>, default: Seq<char>) -> Seq<char> {
    match value {
        Some(text) => text@,
        None => default,
    }
}

/// The string, or `default` where there is none.
pub fn or_text(value: Option<String>, default: &str) -> (text: String)
    ensures
        text@ == text_or(value, default@),
{
    match value {
        Some(text) => text,
        None => default.to_string(),
    }
}

/// An owned copy of `text`, wrapped in `Some`.
pub fn some_text(text: &str) -> (value: Option<String>)
    ensures
        opt_text(value) == Some(text@),
{
    Some(text.to_string())
}

/// `c` is one of the decimal digits `0` to `9`.
pub open spec fn is_digit(c: char) -> bool {
    0x30 <= c as u32 <= 0x39
}

/// Every character of `digits` is a decimal digit.
pub open spec fn all_digits(digits: Seq<char>) -> bool {
    forall|i: int| 0 <= i < digits.len() ==> is_digit(#[trigger] digits[i])
}

/// The number that a sequence of decimal digits writes.
pub open spec fn decimal(digits: Seq<char>) -> int
    decreases digits.len(),
{
    if digits.len() == 0 {
        0
    } else {
        10 * decimal(digits.drop_last()) + (digits.last() as u32 - 0x30)
    }
}

/// The integer that `text` writes in decimal: an optional sign, `+` or `-`,
/// then one digit at least and nothing else.
pub open spec fn signed_decimal(text: Seq<char>) -> Option<int> {
    if text.len() > 0 && (text[0] == '-' || text[0] == '+') {
        let digits = text.skip(1);
        if digits.len() > 0 && all_digits(digits) {
            Some(
                if text[0] == '-' {
                    -decimal(digits)
                } else {
                    decimal(digits)
                },
            )
        } else {
            None
        }
    } else if text.len() > 0 && all_digits(text) {
        Some(decimal(text))
    } else {
        None
    }
}

/// The `i32` that `text` writes in decimal, if it writes one.
pub open spec fn parsed_i32(text: Seq<char>) -> Option<i32> {
    match signed_decimal(text) {
        Some(value) => if i32::MIN <= value <= i32::MAX {
            Some(value as i32)
        } else {
            None
        },
        None => None,
    }
}

/// A number written in digits is at least the number that any of its
/// beginnings writes.
proof fn lemma_decimal_grows(digits: Seq<char>, k: int)
    requires
        all_digits(digits),
        0 <= k <= digits.len(),
    ensures
        0 <= decimal(digits.take(k)) <= decimal(digits),
    decreases digits.len(),
{
    if digits.len() == 0 {
        assert(digits.take(k) =~= digits);
    } else if k == digits.len() {
        assert(digits.take(k) =~= digits);
        lemma_decimal_grows(digits.drop_last(), k - 1);
        assert(is_digit(digits[digits.len() - 1]));
    } else {
        assert(digits.drop_last().take(k) =~= digits.take(k));
        lemma_decimal_grows(digits.drop_last(), k);
        assert(is_digit(digits[digits.len() - 1]));
    }
}

/// Reads a decimal integer, signed or not, that fits in 32 bits.
#[verifier::loop_isolation(false)]
pub fn parse_i32(text: &str) -> (parsed: Option<i32>)
    ensures
        parsed == parsed_i32(text@),
{
    let len = text.unicode_len();
    if len == 0 {
        return None;
    }
    let first = text.get_char(0);
    let negative = first == '-';
    let start: usize = if first == '-' || first == '+' {
        1
    } else {
        0
    };
    if start == len {
        return None;
    }
    let ghost digits = text@.skip(start as int);
    assert(start == 0 ==> digits =~= text@);
    let mut magnitude: i64 = 0;
    let mut i: usize = start;
    while i < len
        invariant
            start <= i <= len,
            len == text@.len(),
            digits == text@.skip(start as int),
            all_digits(digits.take(i - start)),
            magnitude == decimal(digits.take(i - start)),
            0 <= magnitude <= 0x8000_0000,
        decreases len - i,
    {
        let c = text.get_char(i);
        let code = c as u32;
        let ghost k = i - start;
        assert(digits[k] == c);
        if code < 0x30 || code > 0x39 {
            assert(!is_digit(digits[k]));
            return None;
        }
        assert(digits.take(k + 1).drop_last() =~= digits.take(k));
        assert(digits.take(k + 1).last() == c);
        magnitude = magnitude * 10 + (code - 0x30) as i64;
        i = i + 1;
        assert(all_digits(digits.take(k + 1))) by {
            assert forall|j: int| 0 <= j < k + 1 implies is_digit(
                #[trigger] digits.take(k + 1)[j],
            ) by {
                if j < k {
                    assert(digits.take(k + 1)[j] == digits.take(k)[j]);
                }
            }
        }
        if magnitude > 0x8000_0000 {
            proof {
                if all_digits(digits) {
                    lemma_decimal_grows(digits, k + 1);
                }
            }
            return None;
        }
    }
    assert(digits.take(i - start) =~= digits);
    if negative {
        Some((-magnitude) as i32)
    } else if magnitude > 0x7fff_ffff {
        None
    } else {
        Some(magnitude as i32)
    }
}

} // verus!
