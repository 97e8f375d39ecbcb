//! Fixed-point sine and cosine on `[0, pi]`, for the phase argument of the
//! coefficient formulas.
//!
//! The sine is a degree-nine polynomial in Horner form, evaluated after
//! folding the argument into `[0, pi/2]`; the cosine is the sine shifted by
//! a quarter turn. The result is clamped into `[0, 1]` (respectively
//! `[-1, 1]`), so callers can rely on the unit bound.

use vstd::prelude::*;
use crate::fixed::ONE_Q24;

verus! {

/// Half turn in Q24 radians.
pub const PI_Q24: i64 = 52707179;

/// Quarter turn in Q24 radians.
pub const HALF_PI_Q24: i64 = 26353589;

/// Full turn in Q24 radians, exactly twice `PI_Q24`.
pub const TWO_PI_Q24: i64 = 105414358;

/// The polynomial sine on `[0, pi]` in Q24, clamped into `[0, 1]`.
pub open spec fn sin_q24(x: int) -> int {
    let xr = if x > HALF_PI_Q24 as int { PI_Q24 as int - x } else { x };
    let x2 = (xr * xr) / ONE_Q24 as int;
    let t1 = ONE_Q24 as int - x2 / 72;
    let t2 = ONE_Q24 as int - ((x2 * t1) / ONE_Q24 as int) / 42;
    let t3 = ONE_Q24 as int - ((x2 * t2) / ONE_Q24 as int) / 20;
    let t4 = ONE_Q24 as int - ((x2 * t3) / ONE_Q24 as int) / 6;
    let s = (xr * t4) / ONE_Q24 as int;
    if s > ONE_Q24 as int { ONE_Q24 as int } else { s }
}

/// The cosine on `[0, pi]` in Q24: the sine shifted by a quarter turn.
pub open spec fn cos_q24(x: int) -> int {
    if x <= HALF_PI_Q24 as int {
        sin_q24(HALF_PI_Q24 as int - x)
    } else {
        -sin_q24(x - HALF_PI_Q24 as int)
    }
}

/// Sine of a Q24 phase in `[0, pi]`.
pub fn sin_fx(x: i64) -> (r: i64)
    requires
        0 <= x <= PI_Q24,
    ensures
        r as int == sin_q24(x as int),
        0 <= r <= ONE_Q24,
{
    let xr: u64 = if x > HALF_PI_Q24 { (PI_Q24 - x) as u64 } else { x as u64 };
    assert(xr <= 26353590);
    proof {
        assert(xr * xr <= 26353590u64 * 26353590u64) by (nonlinear_arith)
            requires
                xr <= 26353590u64,
        ;
    }
    let x2: u64 = (xr * xr) / (ONE_Q24 as u64);
    assert(x2 <= 41396123) by {
        vstd::arithmetic::div_mod::lemma_div_is_ordered(
            (xr * xr) as int,
            694511705888100int,
            ONE_Q24 as int,
        );
    };
    let t1: u64 = (ONE_Q24 as u64) - x2 / 72;
    proof {
        lemma_factor_bound(x2 as int, t1 as int);
    }
    let t2: u64 = (ONE_Q24 as u64) - ((x2 * t1) / (ONE_Q24 as u64)) / 42;
    proof {
        lemma_factor_bound(x2 as int, t2 as int);
    }
    let t3: u64 = (ONE_Q24 as u64) - ((x2 * t2) / (ONE_Q24 as u64)) / 20;
    proof {
        lemma_factor_bound(x2 as int, t3 as int);
    }
    let t4: u64 = (ONE_Q24 as u64) - ((x2 * t3) / (ONE_Q24 as u64)) / 6;
    proof {
        assert(xr * t4 <= 26353590u64 * 16777216u64) by (nonlinear_arith)
            requires
                xr <= 26353590u64,
                t4 <= 16777216u64,
        ;
    }
    let s: u64 = (xr * t4) / (ONE_Q24 as u64);
    if s > ONE_Q24 as u64 {
        ONE_Q24
    } else {
        s as i64
    }
}

/// A Horner factor `t` in `[0, 1]` keeps `(x2 * t) / 2^24` no larger than
/// `x2` itself, so the next subtraction from one cannot underflow.
proof fn lemma_factor_bound(x2: int, t: int)
    requires
        0 <= x2 <= 41396123,
        0 <= t <= ONE_Q24 as int,
    ensures
        0 <= (x2 * t) / ONE_Q24 as int <= 41396123,
        x2 * t <= 41396123 * ONE_Q24 as int,
{
    assert(x2 * t <= 41396123 * ONE_Q24 as int) by (nonlinear_arith)
        requires
            0 <= x2 <= 41396123,
            0 <= t <= ONE_Q24 as int,
    ;
    assert(x2 * t >= 0) by (nonlinear_arith)
        requires
            0 <= x2,
            0 <= t,
    ;
    vstd::arithmetic::div_mod::lemma_div_is_ordered(
        x2 * t,
        41396123 * ONE_Q24 as int,
        ONE_Q24 as int,
    );
}

/// Cosine of a Q24 phase in `[0, pi]`.
pub fn cos_fx(x: i64) -> (r: i64)
    requires
        0 <= x <= PI_Q24,
    ensures
        r as int == cos_q24(x as int),
        -ONE_Q24 <= r <= ONE_Q24,
{
    if x <= HALF_PI_Q24 {
        sin_fx(HALF_PI_Q24 - x)
    } else {
        let s: i64 = sin_fx(x - HALF_PI_Q24);
        -s
    }
}

} // verus!
