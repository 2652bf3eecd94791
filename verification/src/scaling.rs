//! Scaling a whole number by a binary64 factor.
//!
//! The rules of the game multiply whole numbers by fractional factors the way
//! IEEE 754 double precision arithmetic does it: the whole number is first
//! rounded to the nearest binary64 number, the product is rounded to the
//! nearest binary64 number again, and what is left behind the point is cut
//! off. This module states that computation over the integers and carries it
//! out in integer arithmetic, so that every result is the one binary64
//! arithmetic gives, bit for bit.

use vstd::prelude::*;
use vstd::arithmetic::div_mod::{
    lemma_div_denominator, lemma_fundamental_div_mod, lemma_fundamental_div_mod_converse,
    lemma_mod_multiples_basic,
};
use vstd::arithmetic::power2::{lemma2_to64, lemma_pow2_pos, lemma_pow2_unfold, pow2};
use vstd::bits::lemma_u128_shr_is_div;

verus! {

/// The first whole number that no longer fits the 53 bits of a binary64
/// significand: `2^53`.
pub const SIGNIFICAND_LIMIT: u128 = 0x20_0000_0000_0000;

/// The distance between neighbouring binary64 numbers at the size of `n`: the
/// least power of two `u` for which `n / u` fits a significand.
pub open spec fn spacing(n: nat) -> nat
    decreases n,
{
    if n < SIGNIFICAND_LIMIT {
        1
    } else {
        2 * spacing(n / 2)
    }
}

/// `n` rounded to the nearest multiple of `unit`; of two multiples that are
/// equally near, the even one.
pub open spec fn round_half_even(n: nat, unit: nat) -> nat {
    let quotient = n / unit;
    let remainder = n % unit;
    if 2 * remainder < unit || (2 * remainder == unit && quotient % 2 == 0) {
        quotient * unit
    } else {
        (quotient + 1) * unit
    }
}

/// The binary64 number nearest to `n`, which is a whole number itself.
pub open spec fn nearest_binary64(n: nat) -> nat {
    round_half_even(n, spacing(n))
}

/// A non-negative binary64 number, written as `significand / 2^scale_bits`.
#[derive(Clone, Copy, Debug, PartialEq, Eq, Structural)]
pub struct Factor {
    /// The numerator
    pub significand: u64,
    /// The binary logarithm of the denominator
    pub scale_bits: u32,
}

impl Factor {
    /// The significand fits 53 bits, and the denominator fits 128 bits.
    pub open spec fn wf(self) -> bool {
        self.significand < SIGNIFICAND_LIMIT && self.scale_bits < 128
    }

    /// The factor `significand / 2^scale_bits`, where that is well-formed.
    pub fn new(significand: u64, scale_bits: u32) -> (factor: Option<Factor>)
        ensures
            factor == if (Factor { significand, scale_bits }).wf() {
                Some(Factor { significand, scale_bits })
            } else {
                None
            },
    {
        if (significand as u128) < SIGNIFICAND_LIMIT && scale_bits < 128 {
            Some(Factor { significand, scale_bits })
        } else {
            None
        }
    }
}

/// The whole part of the binary64 product of `magnitude` and `factor`.
pub open spec fn scaled_magnitude(magnitude: nat, factor: Factor) -> nat {
    nearest_binary64(nearest_binary64(magnitude) * (factor.significand as nat)) / pow2(
        factor.scale_bits as nat,
    )
}

/// The binary64 product of `value` and `factor`, truncated toward zero and
/// held to the range of `i64`.
pub open spec fn scaled(value: int, factor: Factor) -> int {
    if value >= 0 {
        let magnitude = scaled_magnitude(value as nat, factor);
        if magnitude > i64::MAX {
            i64::MAX as int
        } else {
            magnitude as int
        }
    } else {
        let magnitude = scaled_magnitude((-value) as nat, factor);
        if -magnitude < i64::MIN {
            i64::MIN as int
        } else {
            -magnitude
        }
    }
}

/// The spacing at the size of `n` is the least power of two that brings `n`
/// down to a significand: the quotient fits 53 bits, and where the spacing is
/// more than one, it needs all of them.
pub proof fn lemma_spacing_fits_significand(n: nat)
    ensures
        spacing(n) >= 1,
        n / spacing(n) < SIGNIFICAND_LIMIT,
        spacing(n) > 1 ==> 2 * (n / spacing(n)) >= SIGNIFICAND_LIMIT,
    decreases n,
{
    if n >= SIGNIFICAND_LIMIT {
        lemma_spacing_fits_significand(n / 2);
        lemma_div_denominator(n as int, 2, spacing(n / 2) as int);
    }
}

/// The binary64 number nearest to `n` is a multiple of the spacing at the
/// size of `n`, and no more than half the spacing away from `n`.
pub proof fn lemma_nearest_binary64_is_near(n: nat)
    ensures
        nearest_binary64(n) % spacing(n) == 0,
        2 * (nearest_binary64(n) - n) <= spacing(n),
        2 * (n - nearest_binary64(n)) <= spacing(n),
{
    let unit = spacing(n);
    let quotient = n / unit;
    lemma_spacing_fits_significand(n);
    lemma_fundamental_div_mod(n as int, unit as int);
    lemma_mod_multiples_basic(quotient as int, unit as int);
    lemma_mod_multiples_basic(quotient as int + 1, unit as int);
    assert((quotient + 1) * unit == unit * quotient + unit) by (nonlinear_arith);
    assert(quotient * unit == unit * quotient) by (nonlinear_arith);
}

/// A whole number that fits a significand, and `2^53` itself, is a binary64
/// number: rounding leaves it as it is.
pub proof fn lemma_nearest_binary64_of_significand(n: nat)
    requires
        n <= SIGNIFICAND_LIMIT,
    ensures
        nearest_binary64(n) == n,
{
    if n < SIGNIFICAND_LIMIT {
        assert(spacing(n) == 1);
        assert(n / 1 == n && n % 1 == 0);
    } else {
        assert(spacing(n) == 2) by {
            reveal_with_fuel(spacing, 2);
        }
        assert(n / 2 == 0x10_0000_0000_0000 && n % 2 == 0);
    }
}

/// A significand that needs all of its 53 bits, multiplied by a spacing, is
/// of the size at which that spacing belongs.
proof fn lemma_spacing_of_multiple(n: nat, significand: nat)
    requires
        SIGNIFICAND_LIMIT <= 2 * significand,
    ensures
        spacing(significand * spacing(n)) == spacing(n) * spacing(significand),
    decreases n,
{
    if n < SIGNIFICAND_LIMIT {
        assert(significand * 1 == significand);
        assert(1 * spacing(significand) == spacing(significand));
    } else {
        let half = spacing(n / 2);
        lemma_spacing_fits_significand(n / 2);
        lemma_spacing_of_multiple(n / 2, significand);
        assert(significand * (2 * half) == 2 * (significand * half)) by (nonlinear_arith);
        assert(significand * half >= significand) by (nonlinear_arith)
            requires
                half >= 1,
        ;
        assert(2 * (half * spacing(significand)) == (2 * half) * spacing(significand))
            by (nonlinear_arith);
    }
}

/// A binary64 number is the binary64 number nearest to itself: rounding what
/// was rounded changes nothing.
pub proof fn lemma_nearest_binary64_is_binary64(n: nat)
    ensures
        nearest_binary64(nearest_binary64(n)) == nearest_binary64(n),
{
    let unit = spacing(n);
    let rounded = nearest_binary64(n);
    let significand = if rounded == (n / unit) * unit {
        n / unit
    } else {
        n / unit + 1
    };
    lemma_spacing_fits_significand(n);
    assert(rounded == significand * unit);
    if unit == 1 {
        assert(significand * 1 == significand);
        lemma_nearest_binary64_of_significand(rounded);
    } else {
        lemma_spacing_of_multiple(n, significand);
        if significand < SIGNIFICAND_LIMIT {
            assert(unit * 1 == unit);
            lemma_fundamental_div_mod_converse(rounded as int, unit as int, significand as int, 0);
        } else {
            assert(spacing(significand) == 2) by {
                reveal_with_fuel(spacing, 2);
            }
            let half: nat = 0x10_0000_0000_0000;
            assert(significand * unit == (unit * 2) * half) by (nonlinear_arith)
                requires
                    significand == 2 * half,
            ;
            assert(half * (unit * 2) == (unit * 2) * half) by (nonlinear_arith);
            lemma_fundamental_div_mod_converse(rounded as int, unit as int * 2, half as int, 0);
        }
    }
}

/// Scaling by one is rounding to the nearest binary64 number.
pub proof fn lemma_scaled_by_one(magnitude: nat)
    ensures
        scaled_magnitude(magnitude, Factor { significand: 1, scale_bits: 0 }) == nearest_binary64(
            magnitude,
        ),
{
    lemma2_to64();
    lemma_nearest_binary64_is_binary64(magnitude);
    assert(nearest_binary64(magnitude) * 1 == nearest_binary64(magnitude));
    assert(nearest_binary64(magnitude) / 1 == nearest_binary64(magnitude));
}

/// The spacing at the size of `n` is a power of two: it divides every power
/// of two that, multiplied by `2^53`, lies above `n`.
pub proof fn lemma_spacing_divides(n: nat, exponent: nat)
    requires
        n < SIGNIFICAND_LIMIT * pow2(exponent),
    ensures
        0 < spacing(n) <= pow2(exponent),
        pow2(exponent) % spacing(n) == 0,
    decreases n,
{
    lemma_pow2_pos(exponent);
    if n >= SIGNIFICAND_LIMIT {
        if exponent == 0 {
            lemma2_to64();
        }
        let half = pow2((exponent - 1) as nat);
        lemma_pow2_unfold(exponent);
        assert(SIGNIFICAND_LIMIT * (2 * half) == 2 * (SIGNIFICAND_LIMIT * half))
            by (nonlinear_arith);
        lemma_spacing_divides(n / 2, (exponent - 1) as nat);
        let unit = spacing(n / 2);
        let count = half / unit;
        lemma_fundamental_div_mod(half as int, unit as int);
        assert(2 * (unit * count) == count * (2 * unit)) by (nonlinear_arith);
        lemma_mod_multiples_basic(count as int, 2 * unit as int);
    }
}

/// Rounding to a multiple of `unit` stays between the multiples of `unit`
/// around `n`: at or above one that is not above `n`, and below one that is
/// more than half a unit above `n`.
pub proof fn lemma_round_half_even_between(n: nat, unit: nat, lower: nat, upper: nat)
    requires
        unit > 0,
        lower % unit == 0,
        upper % unit == 0,
        lower <= n,
        2 * (upper - n) > unit,
    ensures
        lower <= round_half_even(n, unit) < upper,
{
    let quotient = n / unit;
    let remainder = n % unit;
    let below = lower / unit;
    let above = upper / unit;
    lemma_fundamental_div_mod(n as int, unit as int);
    lemma_fundamental_div_mod(lower as int, unit as int);
    lemma_fundamental_div_mod(upper as int, unit as int);
    assert(below <= quotient && below * unit <= quotient * unit) by (nonlinear_arith)
        requires
            unit > 0,
            unit * below <= unit * quotient + remainder,
            0 <= remainder < unit,
    ;
    assert(quotient + 1 <= above && (quotient + 1) * unit <= above * unit) by (nonlinear_arith)
        requires
            unit > 0,
            unit * quotient + remainder < unit * above,
            0 <= remainder < unit,
    ;
    assert((quotient + 1) * unit == unit * quotient + unit) by (nonlinear_arith);
    assert(quotient * unit == unit * quotient) by (nonlinear_arith);
    assert(below * unit == unit * below) by (nonlinear_arith);
    assert(above * unit == unit * above) by (nonlinear_arith);
}

/// Rounds `n` to the nearest binary64 number.
fn round_to_binary64(n: u128) -> (rounded: u128)
    requires
        n <= u128::MAX / 2,
    ensures
        rounded == nearest_binary64(n as nat),
        rounded <= 2 * n,
{
    let mut quotient: u128 = n;
    let mut unit: u128 = 1;
    while quotient >= SIGNIFICAND_LIMIT
        invariant
            unit >= 1,
            unit == 1 || quotient >= 1,
            quotient == n / unit,
            quotient * unit <= n,
            spacing(n as nat) == unit * spacing(quotient as nat),
        decreases quotient,
    {
        proof {
            lemma_div_denominator(n as int, unit as int, 2);
            lemma_fundamental_div_mod(n as int, unit as int * 2);
            assert((quotient / 2) * (unit * 2) == (unit * 2) * (n as int / (unit * 2)))
                by (nonlinear_arith)
                requires
                    quotient / 2 == n as int / (unit * 2),
            ;
            assert(unit * 2 <= n) by (nonlinear_arith)
                requires
                    quotient * unit <= n,
                    quotient >= 2,
                    unit >= 1,
            ;
            assert(unit * (2 * spacing(quotient as nat / 2)) == (unit * 2) * spacing(
                quotient as nat / 2,
            )) by (nonlinear_arith);
        }
        quotient = quotient / 2;
        unit = unit * 2;
    }
    proof {
        lemma_fundamental_div_mod(n as int, unit as int);
        assert(unit * spacing(quotient as nat) == unit) by (nonlinear_arith)
            requires
                spacing(quotient as nat) == 1,
        ;
        assert(unit <= n || unit == 1) by (nonlinear_arith)
            requires
                quotient * unit <= n,
                unit >= 1,
                quotient >= 1 || unit == 1,
        ;
        assert((quotient + 1) * unit == quotient * unit + unit) by (nonlinear_arith);
        assert(quotient * unit == unit * quotient) by (nonlinear_arith);
    }
    let remainder: u128 = n % unit;
    if 2 * remainder < unit || (2 * remainder == unit && quotient % 2 == 0) {
        quotient * unit
    } else {
        (quotient + 1) * unit
    }
}

/// Multiplies `value` by `factor` as binary64 arithmetic does, and cuts the
/// product down to a whole number of type `i64`.
pub fn scale(value: i64, factor: Factor) -> (result: i64)
    requires
        factor.wf(),
    ensures
        result == scaled(value as int, factor),
{
    let magnitude: u128 = if value >= 0 {
        value as u128
    } else {
        (-(value as i128)) as u128
    };
    let rounded: u128 = round_to_binary64(magnitude);
    assert(rounded * factor.significand <= 0x1_0000_0000_0000_0000 * SIGNIFICAND_LIMIT)
        by (nonlinear_arith)
        requires
            rounded <= 0x1_0000_0000_0000_0000,
            factor.significand < SIGNIFICAND_LIMIT,
    ;
    let product: u128 = rounded * (factor.significand as u128);
    let rounded_product: u128 = round_to_binary64(product);
    let whole: u128 = rounded_product >> factor.scale_bits;
    proof {
        lemma_u128_shr_is_div(rounded_product, factor.scale_bits as u128);
    }
    if value >= 0 {
        if whole > i64::MAX as u128 {
            i64::MAX
        } else {
            whole as i64
        }
    } else {
        if whole > 0x8000_0000_0000_0000 {
            i64::MIN
        } else {
            (-(whole as i128)) as i64
        }
    }
}

} // verus!
