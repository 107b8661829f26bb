//! IEEE 754 binary32 patterns read with integer arithmetic.
//!
//! A pattern has a sign bit, eight exponent bits and twenty-three fraction
//! bits. A finite pattern stands for `significand * 2^scale`, negated where
//! the sign bit is set; everything here works on that product and never on a
//! hardware floating-point value.

use vstd::arithmetic::div_mod::{lemma_div_multiples_vanish, lemma_small_mod};
use vstd::arithmetic::div_mod::{lemma_basic_div, lemma_mod_multiples_basic};
use vstd::arithmetic::mul::{lemma_mul_inequality, lemma_mul_is_commutative};
use vstd::arithmetic::power2::{lemma2_to64, lemma_pow2_adds, lemma_pow2_strictly_increases};
use vstd::arithmetic::power2::{lemma_pow2_unfold, pow2};
use vstd::prelude::*;

verus! {

/// Whether the sign bit is set.
pub open spec fn is_negative(bits: u32) -> bool {
    bits >= 0x8000_0000u32
}

/// The eight exponent bits, as a number.
pub open spec fn exponent_field(bits: u32) -> nat {
    (bits as nat / 0x80_0000) % 256
}

/// The twenty-three fraction bits, as a number.
pub open spec fn fraction_field(bits: u32) -> nat {
    bits as nat % 0x80_0000
}

/// Whether the pattern stands for a number, as opposed to an infinity or a NaN.
pub open spec fn is_finite(bits: u32) -> bool {
    exponent_field(bits) != 255
}

/// Whether the pattern is a NaN.
pub open spec fn is_nan(bits: u32) -> bool {
    exponent_field(bits) == 255 && fraction_field(bits) != 0
}

/// The integer that a finite pattern scales: the fraction bits, with the
/// implicit leading one unless the pattern is subnormal.
pub open spec fn significand(bits: u32) -> nat {
    if exponent_field(bits) == 0 {
        fraction_field(bits)
    } else {
        0x80_0000 + fraction_field(bits)
    }
}

/// The power of two by which a finite pattern scales its significand.
pub open spec fn scale(bits: u32) -> int {
    if exponent_field(bits) == 0 {
        -149
    } else {
        exponent_field(bits) - 150
    }
}

/// `numerator / denominator` rounded to the nearest integer, a tie going to
/// the even neighbour.
pub open spec fn round_half_even(numerator: nat, denominator: nat) -> nat {
    let quotient = numerator / denominator;
    let remainder = numerator % denominator;
    if 2 * remainder < denominator || (2 * remainder == denominator && quotient % 2 == 0) {
        quotient
    } else {
        quotient + 1
    }
}

/// The magnitude of a finite pattern in hundredths, rounded to the nearest
/// hundredth with ties to even: `|value| * 100`, rounded.
pub open spec fn hundredths(bits: u32) -> nat {
    if scale(bits) >= 0 {
        significand(bits) * pow2(scale(bits) as nat) * 100
    } else {
        round_half_even(significand(bits) * 100, pow2((-scale(bits)) as nat))
    }
}

proof fn lemma_pow2_128()
    ensures
        pow2(128) == 0x1_0000_0000_0000_0000_0000_0000_0000_0000,
{
    lemma2_to64();
    lemma_pow2_adds(64, 64);
}

/// Two to the power `exponent`.
fn power_of_two(exponent: u32) -> (power: u128)
    requires
        exponent <= 127,
    ensures
        power == pow2(exponent as nat),
{
    let mut power: u128 = 1;
    let mut done: u32 = 0;
    proof {
        lemma2_to64();
    }
    while done < exponent
        invariant
            done <= exponent <= 127,
            power == pow2(done as nat),
        decreases exponent - done,
    {
        proof {
            lemma_pow2_unfold((done + 1) as nat);
            lemma_pow2_128();
            lemma_pow2_strictly_increases((done + 1) as nat, 128);
        }
        power = power * 2;
        done = done + 1;
    }
    power
}

/// The rounded hundredths of a finite pattern, split into whole units and
/// the two digits after the point; `None` for an infinity or a NaN.
pub fn rounded_hundredths(bits: u32) -> (parts: Option<(u128, u8)>)
    ensures
        parts is Some <==> is_finite(bits),
        parts is Some ==> parts.unwrap().0 == hundredths(bits) / 100,
        parts is Some ==> parts.unwrap().1 == hundredths(bits) % 100,
{
    let field: u32 = bits / 0x80_0000 % 256;
    let fraction: u32 = bits % 0x80_0000;
    if field == 255 {
        return None;
    }
    let significand: u32 = if field == 0 {
        fraction
    } else {
        fraction + 0x80_0000
    };
    if field >= 150 {
        let power: u128 = power_of_two(field - 150);
        proof {
            let exponent = (field - 150) as nat;
            lemma2_to64();
            lemma_pow2_adds(24, exponent);
            lemma_pow2_128();
            if 24 + exponent < 128 {
                lemma_pow2_strictly_increases(24 + exponent, 128);
            }
            lemma_mul_inequality(significand as int, pow2(24) - 1, power as int);
            assert((pow2(24) - 1) * power == pow2(24) * power - power) by (nonlinear_arith);
            assert(significand * power < pow2(128));
            lemma_div_multiples_vanish(significand * power, 100);
            lemma_mul_is_commutative(significand * power, 100);
            lemma_mod_multiples_basic(significand * power, 100);
        }
        let whole: u128 = (significand as u128) * power;
        Some((whole, 0))
    } else {
        let shift: u32 = if field == 0 {
            149
        } else {
            150 - field
        };
        let scaled: u64 = (significand as u64) * 100;
        if shift >= 32 {
            proof {
                lemma2_to64();
                if shift > 32 {
                    lemma_pow2_strictly_increases(32, shift as nat);
                }
                lemma_basic_div(scaled as int, pow2(shift as nat) as int);
                lemma_small_mod(scaled as nat, pow2(shift as nat));
            }
            Some((0, 0))
        } else {
            proof {
                lemma2_to64();
                if shift < 31 {
                    lemma_pow2_strictly_increases(shift as nat, 31);
                }
            }
            let divisor: u64 = power_of_two(shift) as u64;
            let quotient: u64 = scaled / divisor;
            let remainder: u64 = scaled % divisor;
            let rounded: u64 = if 2 * remainder < divisor || (2 * remainder == divisor && quotient
                % 2 == 0) {
                quotient
            } else {
                quotient + 1
            };
            Some(((rounded / 100) as u128, (rounded % 100) as u8))
        }
    }
}

} // verus!
