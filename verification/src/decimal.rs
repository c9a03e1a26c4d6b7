//! Whole numbers written in decimal digits.

use vstd::prelude::*;
use vstd::string::StringExecFns;

verus! {

/// Whether `byte` is one of the digits `0` to `9`.
pub open spec fn is_digit(byte: u8) -> bool {
    48 <= byte <= 57
}

/// Whether `text` consists of digits only.
pub open spec fn all_digits(text: Seq<u8>) -> bool {
    forall|i: int| 0 <= i < text.len() ==> is_digit(#[trigger] text[i])
}

/// The number that the digits `text` stand for. No digits stand for zero.
pub open spec fn digits_value(text: Seq<u8>) -> nat
    decreases text.len(),
{
    if text.len() == 0 {
        0
    } else {
        digits_value(text.drop_last()) * 10 + (text.last() - 48) as nat
    }
}

/// Whether `text` begins with a sign, `+` or, where `signed`, `-`.
pub open spec fn has_sign(text: Seq<u8>, signed: bool) -> bool {
    text.len() > 0 && (text[0] == 43 || (signed && text[0] == 45))
}

/// The part of `text` behind its sign.
pub open spec fn magnitude(text: Seq<u8>, signed: bool) -> Seq<u8> {
    if has_sign(text, signed) {
        text.drop_first()
    } else {
        text
    }
}

/// The whole number that `text` stands for: an optional sign, `+` or, where
/// `signed`, `-`, and then one digit or more and nothing else. Anything else
/// stands for no number.
pub open spec fn number(text: Seq<u8>, signed: bool) -> Option<int> {
    let digits = magnitude(text, signed);
    if digits.len() > 0 && all_digits(digits) {
        if has_sign(text, signed) && text[0] == 45 {
            Some(-(digits_value(digits) as int))
        } else {
            Some(digits_value(digits) as int)
        }
    } else {
        None
    }
}

/// What `text` is as an unsigned number of 64 bits.
pub open spec fn spec_parse_u64(text: Seq<u8>) -> Option<u64> {
    match number(text, false) {
        Some(n) => if n <= u64::MAX {
            Some(n as u64)
        } else {
            None
        },
        None => None,
    }
}

/// What `text` is as a signed number of 8 bits.
pub open spec fn spec_parse_i8(text: Seq<u8>) -> Option<i8> {
    match number(text, true) {
        Some(n) => if i8::MIN <= n <= i8::MAX {
            Some(n as i8)
        } else {
            None
        },
        None => None,
    }
}

/// More digits never stand for a smaller number.
pub proof fn lemma_digits_value_grows(text: Seq<u8>, shorter: int)
    requires
        0 <= shorter <= text.len(),
        all_digits(text),
    ensures
        digits_value(text.subrange(0, shorter)) <= digits_value(text),
    decreases text.len() - shorter,
{
    if shorter == text.len() {
        assert(text.subrange(0, shorter) =~= text);
    } else {
        lemma_digits_value_grows(text.drop_last(), shorter);
        assert(text.drop_last().subrange(0, shorter) =~= text.subrange(0, shorter));
        assert(is_digit(text.last()));
        assert forall|i: int| 0 <= i < text.drop_last().len() implies is_digit(
            #[trigger] text.drop_last()[i],
        ) by {
            assert(text.drop_last()[i] == text[i]);
        }
    }
}

/// Reads the digits `text[from..]`: their number, where all of them are
/// digits, there is at least one, and the number is at most `limit`.
fn read_digits(text: &[u8], from: usize, limit: u64) -> (value: Option<u64>)
    requires
        from <= text@.len(),
        limit >= 9,
    ensures
        value == (if text@.len() > from && all_digits(text@.subrange(from as int, text@.len() as int))
            && digits_value(text@.subrange(from as int, text@.len() as int)) <= limit {
            Some(digits_value(text@.subrange(from as int, text@.len() as int)) as u64)
        } else {
            None
        }),
{
    let ghost digits = text@.subrange(from as int, text@.len() as int);
    if text.len() == from {
        return None;
    }
    let mut value: u64 = 0;
    let mut i: usize = from;
    assert(digits.subrange(0, 0) =~= Seq::<u8>::empty());
    while i < text.len()
        invariant
            from <= i <= text@.len(),
            digits == text@.subrange(from as int, text@.len() as int),
            all_digits(digits.subrange(0, i - from)),
            value == digits_value(digits.subrange(0, i - from)),
            value <= limit,
            limit >= 9,
        decreases text@.len() - i,
    {
        let byte: u8 = text[i];
        let ghost read = digits.subrange(0, i - from);
        let ghost more = digits.subrange(0, i - from + 1);
        proof {
            assert(more.drop_last() =~= read);
            assert(more.last() == byte);
        }
        if byte < 48 || byte > 57 {
            assert(!all_digits(digits)) by {
                assert(digits[i - from] == byte);
            }
            return None;
        }
        let digit: u64 = (byte - 48) as u64;
        assert(all_digits(more)) by {
            assert forall|k: int| 0 <= k < more.len() implies is_digit(#[trigger] more[k]) by {
                if k < read.len() {
                    assert(read[k] == more[k]);
                }
            }
        }
        if value > (limit - digit) / 10 {
            proof {
                assert(digits_value(more) == value * 10 + digit);
                assert(value * 10 + digit > limit);
                if all_digits(digits) {
                    lemma_digits_value_grows(digits, i - from + 1);
                }
            }
            return None;
        }
        value = value * 10 + digit;
        i += 1;
    }
    assert(digits.subrange(0, i - from) =~= digits);
    Some(value)
}

/// Reads `text` as an unsigned number of 64 bits: an optional `+`, then one
/// digit or more and nothing else, standing for a number that fits.
pub fn parse_u64(text: &[u8]) -> (value: Option<u64>)
    ensures
        value == spec_parse_u64(text@),
{
    let from: usize = if text.len() > 0 && text[0] == 43 {
        1
    } else {
        0
    };
    assert(magnitude(text@, false) =~= text@.subrange(from as int, text@.len() as int));
    read_digits(text, from, u64::MAX)
}

/// Reads `text` as a signed number of 8 bits: an optional `+` or `-`, then
/// one digit or more and nothing else, standing for a number that fits.
pub fn parse_i8(text: &[u8]) -> (value: Option<i8>)
    ensures
        value == spec_parse_i8(text@),
{
    let negative: bool = text.len() > 0 && text[0] == 45;
    let from: usize = if text.len() > 0 && (text[0] == 43 || text[0] == 45) {
        1
    } else {
        0
    };
    assert(magnitude(text@, true) =~= text@.subrange(from as int, text@.len() as int));
    let limit: u64 = if negative {
        128
    } else {
        127
    };
    match read_digits(text, from, limit) {
        Some(n) => {
            if negative {
                if n == 128 {
                    Some(i8::MIN)
                } else {
                    Some(-(n as i8))
                }
            } else {
                Some(n as i8)
            }
        },
        None => None,
    }
}

/// The text of the digit `digit`.
pub open spec fn digit_text(digit: nat) -> Seq<char> {
    if digit == 0 {
        "0"@
    } else if digit == 1 {
        "1"@
    } else if digit == 2 {
        "2"@
    } else if digit == 3 {
        "3"@
    } else if digit == 4 {
        "4"@
    } else if digit == 5 {
        "5"@
    } else if digit == 6 {
        "6"@
    } else if digit == 7 {
        "7"@
    } else if digit == 8 {
        "8"@
    } else {
        "9"@
    }
}

/// The text of `number` in decimal digits, without leading zeros.
pub open spec fn decimal_text(number: nat) -> Seq<char>
    decreases number,
{
    if number < 10 {
        digit_text(number)
    } else {
        decimal_text(number / 10) + digit_text(number % 10)
    }
}

fn digit(value: u64) -> (text: &'static str)
    requires
        value < 10,
    ensures
        text@ == digit_text(value as nat),
{
    if value == 0 {
        "0"
    } else if value == 1 {
        "1"
    } else if value == 2 {
        "2"
    } else if value == 3 {
        "3"
    } else if value == 4 {
        "4"
    } else if value == 5 {
        "5"
    } else if value == 6 {
        "6"
    } else if value == 7 {
        "7"
    } else if value == 8 {
        "8"
    } else {
        "9"
    }
}

/// Writes `number` in decimal digits, without leading zeros.
pub fn render_u64(number: u64) -> (text: String)
    ensures
        text@ == decimal_text(number as nat),
    decreases number,
{
    if number < 10 {
        String::from_str(digit(number))
    } else {
        let mut text = render_u64(number / 10);
        text.append(digit(number % 10));
        text
    }
}

} // verus!
