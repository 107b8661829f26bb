//! Decimal text: natural numbers as digits, binary32 patterns to two places.

use crate::binary32::{hundredths, is_finite, is_nan, is_negative, rounded_hundredths};
use vstd::prelude::*;
use vstd::string::StringExecFns;
use vstd::utf8::is_ascii_chars;

verus! {

/// The character of a single decimal digit.
pub open spec fn digit_char(digit: nat) -> char {
    if digit == 0 {
        '0'
    } else if digit == 1 {
        '1'
    } else if digit == 2 {
        '2'
    } else if digit == 3 {
        '3'
    } else if digit == 4 {
        '4'
    } else if digit == 5 {
        '5'
    } else if digit == 6 {
        '6'
    } else if digit == 7 {
        '7'
    } else if digit == 8 {
        '8'
    } else {
        '9'
    }
}

/// The decimal digits of `n`, most significant first, without leading zeros.
pub open spec fn decimal_chars(n: nat) -> Seq<char>
    decreases n,
{
    if n < 10 {
        seq![digit_char(n)]
    } else {
        decimal_chars(n / 10).push(digit_char(n % 10))
    }
}

/// A finite or infinite binary32 pattern or a NaN, written with exactly two
/// digits after the point: a minus sign where the sign bit is set, the whole
/// part, a point, and the hundredths, the number being rounded to the nearest
/// hundredth with ties to even. An infinity reads `inf`, a NaN `NaN`.
pub open spec fn two_places_chars(bits: u32) -> Seq<char> {
    if is_nan(bits) {
        "NaN"@
    } else {
        let sign = if is_negative(bits) {
            "-"@
        } else {
            Seq::<char>::empty()
        };
        if is_finite(bits) {
            let amount = hundredths(bits);
            sign + decimal_chars(amount / 100) + "."@ + seq![
                digit_char(amount % 100 / 10),
                digit_char(amount % 10),
            ]
        } else {
            sign + "inf"@
        }
    }
}

/// Decimal digits are ASCII.
pub proof fn lemma_decimal_is_ascii(n: nat)
    ensures
        is_ascii_chars(decimal_chars(n)),
        decimal_chars(n).len() >= 1,
    decreases n,
{
    if n >= 10 {
        lemma_decimal_is_ascii(n / 10);
    }
}

/// Ten to the power `exponent`.
pub open spec fn pow10(exponent: nat) -> nat
    decreases exponent,
{
    if exponent == 0 {
        1
    } else {
        10 * pow10((exponent - 1) as nat)
    }
}

/// A number below ten to the power `digits` has at most `digits` digits.
pub proof fn lemma_decimal_length(n: nat, digits: nat)
    requires
        digits >= 1,
        n < pow10(digits),
    ensures
        decimal_chars(n).len() <= digits,
    decreases digits,
{
    reveal_with_fuel(pow10, 2);
    if n >= 10 {
        lemma_decimal_length(n / 10, (digits - 1) as nat);
    }
}

/// A finite pattern whose rounded magnitude is below ten to the power
/// `digits` takes at most a sign, `digits` digits, the point and two more
/// digits.
pub proof fn lemma_two_places_length(bits: u32, digits: nat)
    requires
        is_finite(bits),
        digits >= 1,
        hundredths(bits) < 100 * pow10(digits),
    ensures
        two_places_chars(bits).len() <= digits + 4,
{
    reveal_strlit("-");
    reveal_strlit(".");
    lemma_decimal_length(hundredths(bits) / 100, digits);
}

/// A pattern written to two places is ASCII, so it takes one byte for each
/// character, and it is at least three characters long.
pub proof fn lemma_two_places_is_ascii(bits: u32)
    ensures
        is_ascii_chars(two_places_chars(bits)),
        two_places_chars(bits).len() >= 3,
{
    reveal_strlit("NaN");
    reveal_strlit("-");
    reveal_strlit(".");
    reveal_strlit("inf");
    if is_finite(bits) {
        lemma_decimal_is_ascii(hundredths(bits) / 100);
    }
}

fn digit_text(digit: u8) -> (text: &'static str)
    requires
        digit < 10,
    ensures
        text@ == seq![digit_char(digit as nat)],
{
    proof {
        reveal_strlit("0");
        reveal_strlit("1");
        reveal_strlit("2");
        reveal_strlit("3");
        reveal_strlit("4");
        reveal_strlit("5");
        reveal_strlit("6");
        reveal_strlit("7");
        reveal_strlit("8");
        reveal_strlit("9");
    }
    let text = if digit == 0 {
        "0"
    } else if digit == 1 {
        "1"
    } else if digit == 2 {
        "2"
    } else if digit == 3 {
        "3"
    } else if digit == 4 {
        "4"
    } else if digit == 5 {
        "5"
    } else if digit == 6 {
        "6"
    } else if digit == 7 {
        "7"
    } else if digit == 8 {
        "8"
    } else {
        "9"
    };
    assert(text@ =~= seq![digit_char(digit as nat)]);
    text
}

/// Appends the decimal digits of `n` to `text`.
pub fn append_decimal(text: &mut String, n: u128)
    ensures
        final(text)@ == old(text)@ + decimal_chars(n as nat),
    decreases n,
{
    if n >= 10 {
        append_decimal(text, n / 10);
    }
    text.append(digit_text((n % 10) as u8));
    assert(final(text)@ =~= old(text)@ + decimal_chars(n as nat));
}

/// Writes a binary32 pattern with two digits after the point.
pub fn two_places(bits: u32) -> (text: String)
    ensures
        text@ == two_places_chars(bits),
{
    let field: u32 = bits / 0x80_0000 % 256;
    let fraction: u32 = bits % 0x80_0000;
    if field == 255 && fraction != 0 {
        return String::from_str("NaN");
    }
    let mut text = String::new();
    if bits >= 0x8000_0000 {
        text.append("-");
    }
    match rounded_hundredths(bits) {
        Some((whole, cents)) => {
            append_decimal(&mut text, whole);
            text.append(".");
            text.append(digit_text(cents / 10));
            text.append(digit_text(cents % 10));
            proof {
                let amount = hundredths(bits);
                assert(amount % 100 % 10 == amount % 10);
            }
        },
        None => {
            text.append("inf");
        },
    }
    assert(text@ =~= two_places_chars(bits));
    text
}

} // verus!
