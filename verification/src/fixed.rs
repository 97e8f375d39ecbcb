//! Saturating Q24 fixed-point arithmetic.
//!
//! A signal value is an `i64` raw quantity standing for `raw / 2^24`.
//! Every operation clamps its result to `[-MAX_Q24, MAX_Q24]`, so the
//! operations are total: the real-time path never panics and never
//! overflows, however extreme the coefficients are.

use vstd::prelude::*;

verus! {

/// Number of fractional bits' scale: `2^24`.
pub const SCALE_Q24: i64 = 16777216;

/// The value one in Q24.
pub const ONE_Q24: i64 = 16777216;

/// Saturation bound: `2^45` in raw units (`2^21` in signal units).
pub const MAX_Q24: i64 = 35184372088832;

/// Clamp a mathematical result into the representable band.
pub open spec fn sat_clamp(v: int) -> int {
    if v > MAX_Q24 as int {
        MAX_Q24 as int
    } else if v < -(MAX_Q24 as int) {
        -(MAX_Q24 as int)
    } else {
        v
    }
}

/// Division truncating toward zero (for a positive divisor), as the
/// machine division of raw values behaves.
pub open spec fn trunc_div(a: int, b: int) -> int {
    if a >= 0 {
        a / b
    } else {
        -((-a) / b)
    }
}

/// Saturating raw addition.
pub open spec fn q24_add(a: int, b: int) -> int {
    sat_clamp(a + b)
}

/// Saturating raw subtraction.
pub open spec fn q24_sub(a: int, b: int) -> int {
    sat_clamp(a - b)
}

/// Saturating raw negation.
pub open spec fn q24_neg(a: int) -> int {
    sat_clamp(-a)
}

/// Saturating Q24 multiplication: the double-width product is rescaled
/// by `2^24`, truncating toward zero.
pub open spec fn q24_mul(a: int, b: int) -> int {
    sat_clamp(trunc_div(a * b, SCALE_Q24 as int))
}

/// Saturating Q24 division (positive divisor): the dividend is prescaled
/// by `2^24`, then divided truncating toward zero.
pub open spec fn q24_div(a: int, b: int) -> int {
    sat_clamp(trunc_div(a * SCALE_Q24 as int, b))
}

/// Clamp a raw value to the unit band `[-1, 1]` (in signal units).
pub open spec fn unit_clamp(v: int) -> int {
    if v > ONE_Q24 as int {
        ONE_Q24 as int
    } else if v < -(ONE_Q24 as int) {
        -(ONE_Q24 as int)
    } else {
        v
    }
}

/// Clamp a double-width intermediate back into the representable band.
fn clamp_i128(v: i128) -> (r: i64)
    ensures
        r as int == sat_clamp(v as int),
{
    if v > MAX_Q24 as i128 {
        MAX_Q24
    } else if v < -(MAX_Q24 as i128) {
        -MAX_Q24
    } else {
        v as i64
    }
}

/// Saturating addition of raw values.
pub fn fx_add(a: i64, b: i64) -> (r: i64)
    ensures
        r as int == q24_add(a as int, b as int),
{
    let s: i128 = a as i128 + b as i128;
    clamp_i128(s)
}

/// Saturating subtraction of raw values.
pub fn fx_sub(a: i64, b: i64) -> (r: i64)
    ensures
        r as int == q24_sub(a as int, b as int),
{
    let s: i128 = a as i128 - b as i128;
    clamp_i128(s)
}

/// Saturating negation of a raw value.
pub fn fx_neg(a: i64) -> (r: i64)
    ensures
        r as int == q24_neg(a as int),
{
    let s: i128 = -(a as i128);
    clamp_i128(s)
}

/// Magnitude of a raw value, as the unsigned double-width integer.
fn magnitude(a: i64) -> (m: u128)
    ensures
        m as int == if a >= 0 { a as int } else { -(a as int) },
        m <= 0x8000000000000000u128,
{
    if a >= 0 {
        a as u128
    } else {
        (-(a as i128)) as u128
    }
}

/// Rebuild a signed, saturated raw value from a magnitude.
fn from_magnitude(m: u128, neg: bool) -> (r: i64)
    ensures
        r as int == sat_clamp(if neg { -(m as int) } else { m as int }),
{
    if m > MAX_Q24 as u128 {
        if neg {
            -MAX_Q24
        } else {
            MAX_Q24
        }
    } else {
        if neg {
            -(m as i64)
        } else {
            m as i64
        }
    }
}

/// Saturating Q24 multiplication of raw values.
pub fn fx_mul(a: i64, b: i64) -> (r: i64)
    ensures
        r as int == q24_mul(a as int, b as int),
{
    let neg: bool = (a < 0) != (b < 0);
    let ma: u128 = magnitude(a);
    let mb: u128 = magnitude(b);
    proof {
        assert(ma * mb <= 0x8000000000000000u128 * 0x8000000000000000u128) by (nonlinear_arith)
            requires
                ma <= 0x8000000000000000u128,
                mb <= 0x8000000000000000u128,
        ;
    }
    let mq: u128 = (ma * mb) / (SCALE_Q24 as u128);
    proof {
        lemma_magnitude_product(a as int, b as int, ma as int, mb as int);
        assert(mq as int == trunc_div_magnitude(a as int * b as int, SCALE_Q24 as int, neg));
    }
    from_magnitude(mq, neg)
}

/// Saturating Q24 division of raw values by a positive divisor.
pub fn fx_div(a: i64, b: i64) -> (r: i64)
    requires
        b > 0,
    ensures
        r as int == q24_div(a as int, b as int),
{
    let neg: bool = a < 0;
    let ma: u128 = magnitude(a);
    proof {
        assert(ma * (SCALE_Q24 as u128) <= 0x8000000000000000u128 * (SCALE_Q24 as u128))
            by (nonlinear_arith)
            requires
                ma <= 0x8000000000000000u128,
        ;
    }
    let scaled: u128 = ma * (SCALE_Q24 as u128);
    let mq: u128 = scaled / (b as u128);
    proof {
        lemma_magnitude_product(a as int, SCALE_Q24 as int, ma as int, SCALE_Q24 as int);
        assert(mq as int == trunc_div_magnitude(a as int * SCALE_Q24 as int, b as int, neg));
    }
    from_magnitude(mq, neg)
}

/// Halve a nonnegative raw value exactly.
pub fn fx_half(a: i64) -> (r: i64)
    requires
        a >= 0,
    ensures
        r as int == (a as int) / 2,
{
    ((a as u64) / 2) as i64
}

/// Clamp a raw sample to the unit band `[-1, 1]`.
pub fn fx_unit_clamp(v: i64) -> (r: i64)
    ensures
        r as int == unit_clamp(v as int),
        -ONE_Q24 <= r <= ONE_Q24,
{
    if v > ONE_Q24 {
        ONE_Q24
    } else if v < -ONE_Q24 {
        -ONE_Q24
    } else {
        v
    }
}

/// The magnitude of a truncating division, split on the sign of the
/// dividend: the helper shape shared by `fx_mul` and `fx_div`.
pub open spec fn trunc_div_magnitude(p: int, d: int, neg: bool) -> int {
    if neg {
        (-p) / d
    } else {
        p / d
    }
}

/// The product of the magnitudes is the magnitude of the product, and the
/// sign of the product is the exclusive or of the signs.
proof fn lemma_magnitude_product(a: int, b: int, ma: int, mb: int)
    requires
        ma == if a >= 0 { a } else { -a },
        mb == if b >= 0 { b } else { -b },
    ensures
        ma * mb == if (a < 0) != (b < 0) { -(a * b) } else { a * b },
        ((a < 0) != (b < 0)) ==> a * b <= 0,
        !((a < 0) != (b < 0)) ==> a * b >= 0,
{
    assert(ma * mb == if (a < 0) != (b < 0) { -(a * b) } else { a * b }) by (nonlinear_arith)
        requires
            ma == if a >= 0 { a } else { -a },
            mb == if b >= 0 { b } else { -b },
    ;
    assert(((a < 0) != (b < 0)) ==> a * b <= 0) by (nonlinear_arith);
    assert(!((a < 0) != (b < 0)) ==> a * b >= 0) by (nonlinear_arith)
        requires
            ma == if a >= 0 { a } else { -a },
            mb == if b >= 0 { b } else { -b },
    ;
}

} // verus!
