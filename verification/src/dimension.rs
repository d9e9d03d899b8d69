//! The matrix dimension a run is asked for: a decimal number on the command
//! line, or a default.

use vstd::prelude::*;
use vstd::string::StringSliceAdditionalSpecFns;

verus! {

/// The dimension used when none is given or the one given is not a number.
pub const DEFAULT_DIMENSION: usize = 1000;

/// ASCII code of the digit `0`.
pub const DIGIT_ZERO: u8 = 0x30;

/// ASCII code of the digit `9`.
pub const DIGIT_NINE: u8 = 0x39;

/// ASCII code of the plus sign.
pub const PLUS_SIGN: u8 = 0x2b;

/// Whether `byte` is an ASCII decimal digit.
pub open spec fn is_digit(byte: u8) -> bool {
    DIGIT_ZERO <= byte <= DIGIT_NINE
}

/// Whether every byte of `bytes` is a decimal digit.
pub open spec fn all_digits(bytes: Seq<u8>) -> bool {
    forall|k: int| 0 <= k < bytes.len() ==> is_digit(#[trigger] bytes[k])
}

/// The number that a sequence of decimal digits denotes, most significant
/// digit first.
pub open spec fn digits_value(digits: Seq<u8>) -> nat
    decreases digits.len(),
{
    if digits.len() == 0 {
        0
    } else {
        10 * digits_value(digits.drop_last()) + (digits.last() - DIGIT_ZERO) as nat
    }
}

/// The digits of a number text: the text itself, or what follows its
/// leading plus sign.
pub open spec fn unsigned_part(text: Seq<u8>) -> Seq<u8> {
    if text.len() > 0 && text[0] == PLUS_SIGN {
        text.skip(1)
    } else {
        text
    }
}

/// The dimension that `text` denotes: an optional plus sign and then one
/// or more decimal digits and nothing else, of a value that fits `usize`.
pub open spec fn parsed_dimension(text: Seq<u8>) -> Option<usize> {
    let digits = unsigned_part(text);
    if digits.len() > 0 && all_digits(digits) && digits_value(digits) <= usize::MAX {
        Some(digits_value(digits) as usize)
    } else {
        None
    }
}

/// A number does not get smaller when more digits follow.
proof fn lemma_digits_value_grows(digits: Seq<u8>, shorter: int)
    requires
        0 <= shorter <= digits.len(),
        all_digits(digits),
    ensures
        digits_value(digits.take(shorter)) <= digits_value(digits),
    decreases digits.len(),
{
    if shorter < digits.len() {
        assert(digits.drop_last().take(shorter) =~= digits.take(shorter));
        lemma_digits_value_grows(digits.drop_last(), shorter);
    } else {
        assert(digits.take(shorter) =~= digits);
    }
}

/// Reads a dimension from `text`; `None` where it is not a number that
/// fits.
pub fn parse_dimension(text: &str) -> (r: Option<usize>)
    ensures
        r == parsed_dimension(text.spec_bytes()),
{
    let bytes = text.as_bytes();
    let len = bytes.len();
    let start: usize = if len > 0 && bytes[0] == PLUS_SIGN {
        1
    } else {
        0
    };
    let ghost digits = unsigned_part(bytes@);
    assert(digits =~= bytes@.skip(start as int));
    if start == len {
        return None;
    }
    let mut value: usize = 0;
    let mut at: usize = start;
    while at < len
        invariant
            len == bytes@.len(),
            start <= at <= len,
            bytes@ == text.spec_bytes(),
            digits == unsigned_part(bytes@),
            digits == bytes@.skip(start as int),
            all_digits(digits.take(at - start)),
            value == digits_value(digits.take(at - start)),
        decreases len - at,
    {
        let byte = bytes[at];
        if byte < DIGIT_ZERO || byte > DIGIT_NINE {
            assert(!is_digit(digits[at - start]));
            return None;
        }
        let digit = (byte - DIGIT_ZERO) as usize;
        proof {
            let longer = digits.take(at - start + 1);
            assert(longer.drop_last() =~= digits.take(at - start));
            assert(longer.last() == byte);
            assert(all_digits(longer));
            if all_digits(digits) {
                lemma_digits_value_grows(digits, at - start + 1);
            }
        }
        let tenfold = match value.checked_mul(10) {
            Some(tenfold) => tenfold,
            None => {
                return None;
            },
        };
        value = match tenfold.checked_add(digit) {
            Some(sum) => sum,
            None => {
                return None;
            },
        };
        at += 1;
    }
    assert(digits.take(at - start) =~= digits);
    Some(value)
}

/// The dimension for the outcome of reading the argument: the number read,
/// or the default where there was none.
pub open spec fn or_default(parsed: Option<usize>) -> usize {
    match parsed {
        Some(given) => given,
        None => DEFAULT_DIMENSION,
    }
}

/// The dimension for an optional command-line argument: the number it
/// denotes, or the default when the argument is absent or is not a number
/// that fits.
pub fn dimension_from_arg(arg: Option<&str>) -> (n: usize)
    ensures
        n == match arg {
            Some(text) => or_default(parsed_dimension(text.spec_bytes())),
            None => DEFAULT_DIMENSION,
        },
{
    match arg {
        Some(text) => match parse_dimension(text) {
            Some(given) => given,
            None => DEFAULT_DIMENSION,
        },
        None => DEFAULT_DIMENSION,
    }
}

} // verus!
