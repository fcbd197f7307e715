//! Floor-rounded fixed-point arithmetic at seven decimal digits.

use soroban_fixed_point_math::FixedPoint;
use vstd::arithmetic::div_mod::{
    lemma_div_by_multiple, lemma_div_is_ordered, lemma_fundamental_div_mod,
    lemma_fundamental_div_mod_converse,
};
use vstd::prelude::*;

verus! {

/// One whole unit, as a fixed-point number with seven decimal digits.
pub const SCALE: i128 = 10_000_000;

/// `floor(x * y / z)` where the product fits in an `i128`, nothing where it
/// does not. Meant for `x >= 0`, `y >= 0` and `z > 0`.
pub open spec fn floor_mul_div(x: int, y: int, z: int) -> Option<i128> {
    if x * y <= i128::MAX {
        Some(((x * y) / z) as i128)
    } else {
        None
    }
}

/// `FixedPoint::fixed_mul_floor` of `soroban_fixed_point_math` on `i128`.
///
/// Trusted: for non-negative factors and a positive denominator the call
/// gives `floor(x * y / denominator)`, or `None` when the product `x * y`
/// does not fit in an `i128`.
#[verifier::external_body]
fn fixed_mul_floor(x: i128, y: i128, denominator: i128) -> (r: Option<i128>)
    requires
        x >= 0,
        y >= 0,
        denominator > 0,
    ensures
        r == floor_mul_div(x as int, y as int, denominator as int),
{
    x.fixed_mul_floor(y, denominator)
}

/// `FixedPoint::fixed_div_floor` of `soroban_fixed_point_math` on `i128`.
///
/// Trusted: for a non-negative numerator and scale and a positive divisor
/// the call gives `floor(x * denominator / y)`, or `None` when the product
/// `x * denominator` does not fit in an `i128`.
#[verifier::external_body]
fn fixed_div_floor(x: i128, y: i128, denominator: i128) -> (r: Option<i128>)
    requires
        x >= 0,
        denominator >= 0,
        y > 0,
    ensures
        r == floor_mul_div(x as int, denominator as int, y as int),
{
    x.fixed_div_floor(y, denominator)
}

/// Splitting `amount` at the scale does not change the floored product:
/// the whole units are multiplied exactly, and only the rest is divided.
pub proof fn lemma_scale_split(amount: int, fraction: int)
    requires
        amount >= 0,
        fraction >= 0,
    ensures
        amount * fraction / (SCALE as int) == (amount / (SCALE as int)) * fraction
            + ((amount % (SCALE as int)) * fraction) / (SCALE as int),
{
    let s = SCALE as int;
    let q = amount / s;
    let r = amount % s;
    let rf = r * fraction;
    lemma_fundamental_div_mod(amount, s);
    lemma_fundamental_div_mod(rf, s);
    assert(amount * fraction == (q * fraction + rf / s) * s + rf % s) by (nonlinear_arith)
        requires
            amount == s * q + r,
            rf == r * fraction,
            rf == s * (rf / s) + rf % s,
    ;
    lemma_fundamental_div_mod_converse(amount * fraction, s, q * fraction + rf / s, rf % s);
}

/// A share of at most the whole is at most the amount, and never negative.
pub proof fn lemma_scaled_bounds(amount: int, fraction: int)
    requires
        amount >= 0,
        0 <= fraction <= SCALE,
    ensures
        0 <= amount * fraction / (SCALE as int) <= amount,
{
    let s = SCALE as int;
    assert(0 <= amount * fraction <= amount * s) by (nonlinear_arith)
        requires
            amount >= 0,
            0 <= fraction <= s,
    ;
    lemma_div_is_ordered(0, amount * fraction, s);
    lemma_div_is_ordered(amount * fraction, amount * s, s);
    lemma_div_by_multiple(amount, s);
}

/// A part of the whole is a fraction between zero and one.
pub proof fn lemma_fraction_bounds(part: int, whole: int)
    requires
        0 <= part <= whole,
        whole > 0,
    ensures
        0 <= part * SCALE / whole <= SCALE,
{
    let s = SCALE as int;
    assert(0 <= part * s <= s * whole) by (nonlinear_arith)
        requires
            0 <= part <= whole,
            s > 0,
    ;
    lemma_div_is_ordered(0, part * s, whole);
    lemma_div_is_ordered(part * s, s * whole, whole);
    lemma_div_by_multiple(s, whole);
}

/// The fraction `part / whole` at the scale, rounded down.
pub fn fraction_floor(part: u64, whole: u64) -> (r: i128)
    requires
        whole > 0,
    ensures
        r == part * SCALE / (whole as int),
{
    proof {
        assert(0 <= part * SCALE <= i128::MAX) by (nonlinear_arith)
            requires
                0 <= part <= u64::MAX,
                SCALE == 10_000_000,
        ;
        lemma_div_is_ordered(0, part * SCALE, whole as int);
        assert((part * SCALE) / (whole as int) <= part * SCALE) by (nonlinear_arith)
            requires
                part * SCALE >= 0,
                whole > 0,
        ;
    }
    fixed_div_floor(part as i128, whole as i128, SCALE).unwrap()
}

/// The share `fraction` of `amount`, rounded down. The result is exact for
/// every amount: where the product would not fit in an `i128`, the whole
/// units of the amount are multiplied and only the rest is divided.
pub fn scale_floor(amount: i128, fraction: i128) -> (r: i128)
    requires
        amount >= 0,
        0 <= fraction <= SCALE,
    ensures
        r == amount * fraction / (SCALE as int),
        0 <= r <= amount,
{
    proof {
        lemma_scaled_bounds(amount as int, fraction as int);
    }
    match fixed_mul_floor(amount, fraction, SCALE) {
        Some(share) => share,
        None => {
            let units: i128 = amount / SCALE;
            let rest: i128 = amount % SCALE;
            proof {
                lemma_scale_split(amount as int, fraction as int);
                lemma_fundamental_div_mod(amount as int, SCALE as int);
                assert(0 <= units * fraction <= amount) by (nonlinear_arith)
                    requires
                        units >= 0,
                        0 <= fraction <= SCALE,
                        amount == SCALE * units + rest,
                        rest >= 0,
                ;
                assert(0 <= rest * fraction <= SCALE * SCALE) by (nonlinear_arith)
                    requires
                        0 <= rest < SCALE,
                        0 <= fraction <= SCALE,
                ;
                lemma_div_is_ordered(0, rest * fraction, SCALE as int);
            }
            units * fraction + (rest * fraction) / SCALE
        },
    }
}

} // verus!
