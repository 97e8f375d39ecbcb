//! Biquad filter sections: coefficient synthesis from musical parameters
//! and the recursive (direct-form) realization with a two-sample delay
//! line per side.

use vstd::prelude::*;
use crate::fixed::{
    ONE_Q24, SCALE_Q24, q24_add, q24_sub, q24_neg, q24_mul, q24_div,
    fx_add, fx_sub, fx_neg, fx_mul, fx_div, fx_half,
};
use crate::trig::{PI_Q24, TWO_PI_Q24, sin_q24, cos_q24, sin_fx, cos_fx};
use crate::generators::{ErrorKind, GeneratorError};

verus! {

/// The filter responses with a synthesis formula, plus the explicitly
/// unimplemented band-stop response. Shelving variants are a known future
/// extension and are deliberately absent.
#[derive(Clone, Copy, Debug, PartialEq, Eq, Structural)]
pub enum CommonFilters {
    Bandpass,
    Bandstop,
    Lowpass,
    Highpass,
}

/// Five normalized biquad coefficients (implicit `a0 = 1`), in Q24.
/// Immutable once produced; parameter changes replace the whole set.
#[derive(Clone, Copy, Debug, PartialEq, Eq, Structural)]
pub struct BiquadCoeffs {
    pub a1: i64,
    pub a2: i64,
    pub b0: i64,
    pub b1: i64,
    pub b2: i64,
}

impl BiquadCoeffs {
    /// The all-zero coefficient set.
    pub fn new() -> (c: BiquadCoeffs)
        ensures
            c.a1 == 0 && c.a2 == 0 && c.b0 == 0 && c.b1 == 0 && c.b2 == 0,
    {
        BiquadCoeffs { a1: 0, a2: 0, b0: 0, b1: 0, b2: 0 }
    }
}

/// A biquad realization: one filtering step consumes an input sample and a
/// coefficient set and advances the delay line.
pub trait Biquad {
    fn filter(&mut self, v_in: i64, coeffs: &BiquadCoeffs) -> i64;
}

/// The recursive realization's state: the two most recent raw inputs and
/// the two most recent outputs. Both pairs are zero in the quiescent state.
#[derive(Clone, Copy, Debug, PartialEq, Eq, Structural)]
pub struct DirectFormII {
    pub x1: i64,
    pub x2: i64,
    pub y1: i64,
    pub y2: i64,
}

/// The output of one filtering step, from the pre-shift state: the
/// feed-forward combination minus the feedback combination, in saturating
/// Q24 arithmetic.
pub open spec fn step_output(st: DirectFormII, c: BiquadCoeffs, x: int) -> int {
    q24_sub(
        q24_add(
            q24_add(q24_mul(c.b0 as int, x), q24_mul(c.b1 as int, st.x1 as int)),
            q24_mul(c.b2 as int, st.x2 as int),
        ),
        q24_add(q24_mul(c.a1 as int, st.y1 as int), q24_mul(c.a2 as int, st.y2 as int)),
    )
}

impl DirectFormII {
    /// A quiescent filter: both delay-line pairs are zero.
    pub fn new() -> (f: DirectFormII)
        ensures
            f.x1 == 0 && f.x2 == 0 && f.y1 == 0 && f.y2 == 0,
    {
        DirectFormII { x1: 0, x2: 0, y1: 0, y2: 0 }
    }

    /// Shift the delay line after an output has been computed: the input
    /// and output histories each move back one slot.
    fn shift_delayline(&mut self, v_in: i64, accum: i64)
        ensures
            final(self).x1 == v_in,
            final(self).x2 == old(self).x1,
            final(self).y1 == accum,
            final(self).y2 == old(self).y1,
    {
        self.x2 = self.x1;
        self.x1 = v_in;
        self.y2 = self.y1;
        self.y1 = accum;
    }
}

impl Biquad for DirectFormII {
    /// One filtering step: the output is computed from the pre-shift
    /// history, then the delay line shifts, unconditionally.
    fn filter(&mut self, v_in: i64, coeffs: &BiquadCoeffs) -> (out: i64)
        ensures
            out as int == step_output(*old(self), *coeffs, v_in as int),
            final(self).x1 == v_in,
            final(self).x2 == old(self).x1,
            final(self).y1 == out,
            final(self).y2 == old(self).y1,
    {
        let ff: i64 = fx_add(
            fx_add(fx_mul(coeffs.b0, v_in), fx_mul(coeffs.b1, self.x1)),
            fx_mul(coeffs.b2, self.x2),
        );
        let fb: i64 = fx_add(fx_mul(coeffs.a1, self.y1), fx_mul(coeffs.a2, self.y2));
        let accum: i64 = fx_sub(ff, fb);
        self.shift_delayline(v_in, accum);
        accum
    }
}

/// Law: a quiescent filter (both delay-line pairs zero) maps a zero input
/// sample to a zero output, whatever the coefficient set.
pub proof fn lemma_quiescent_zero_input(c: BiquadCoeffs)
    ensures
        step_output((DirectFormII { x1: 0, x2: 0, y1: 0, y2: 0 }), c, 0) == 0,
{
    assert(c.b0 as int * 0 == 0) by (nonlinear_arith);
    assert(c.b1 as int * 0 == 0) by (nonlinear_arith);
    assert(c.b2 as int * 0 == 0) by (nonlinear_arith);
    assert(c.a1 as int * 0 == 0) by (nonlinear_arith);
    assert(c.a2 as int * 0 == 0) by (nonlinear_arith);
}

/// The phase `omega = 2*pi*cutoff/rate` in Q24 radians, from a cutoff in
/// millihertz and a sample rate in hertz.
pub open spec fn phase_spec(cutoff_mhz: int, sample_rate: int) -> int {
    (TWO_PI_Q24 as int * cutoff_mhz) / (1000 * sample_rate)
}

/// Compute the phase of a cutoff no higher than Nyquist; it lands in
/// `[0, pi]`.
pub fn phase_q24(cutoff_mhz: u64, sample_rate: u32) -> (w: i64)
    requires
        0 < sample_rate < 196000,
        cutoff_mhz <= 500 * sample_rate,
    ensures
        w as int == phase_spec(cutoff_mhz as int, sample_rate as int),
        0 <= w <= PI_Q24,
{
    let num: u64 = (TWO_PI_Q24 as u64) * cutoff_mhz;
    let den: u64 = 1000 * (sample_rate as u64);
    proof {
        vstd::arithmetic::mul::lemma_mul_inequality(
            cutoff_mhz as int,
            500 * sample_rate as int,
            TWO_PI_Q24 as int,
        );
        assert((500 * sample_rate as int) * TWO_PI_Q24 as int == (1000 * sample_rate as int)
            * PI_Q24 as int) by (nonlinear_arith);
        vstd::arithmetic::div_mod::lemma_div_is_ordered(
            TWO_PI_Q24 as int * cutoff_mhz as int,
            (1000 * sample_rate as int) * PI_Q24 as int,
            1000 * sample_rate as int,
        );
        vstd::arithmetic::div_mod::lemma_div_multiples_vanish(
            PI_Q24 as int,
            1000 * sample_rate as int,
        );
    }
    let w64: u64 = num / den;
    w64 as i64
}

/// The cookbook coefficient set for a synthesizable response, in exact
/// saturating Q24 arithmetic: with `w` the phase, `alpha = sin(w)/(2*Q)`,
/// all variants share `a1 = -2*cos(w)` and `a2 = 1 - alpha`.
pub open spec fn coeffs_spec(
    filt_type: CommonFilters,
    cutoff_mhz: int,
    q_millis: int,
    sample_rate: int,
) -> BiquadCoeffs {
    let w = phase_spec(cutoff_mhz, sample_rate);
    let sw = sin_q24(w);
    let cw = cos_q24(w);
    let q_raw = (q_millis * SCALE_Q24 as int) / 1000;
    let alpha = q24_div(sw, 2 * q_raw);
    let a1 = q24_neg(q24_add(cw, cw));
    let a2 = q24_sub(ONE_Q24 as int, alpha);
    match filt_type {
        CommonFilters::Lowpass => {
            let b1 = q24_sub(ONE_Q24 as int, cw);
            BiquadCoeffs {
                a1: a1 as i64,
                a2: a2 as i64,
                b0: (b1 / 2) as i64,
                b1: b1 as i64,
                b2: (b1 / 2) as i64,
            }
        },
        CommonFilters::Highpass => {
            let t = q24_add(ONE_Q24 as int, cw);
            BiquadCoeffs {
                a1: a1 as i64,
                a2: a2 as i64,
                b0: (t / 2) as i64,
                b1: q24_neg(t) as i64,
                b2: (t / 2) as i64,
            }
        },
        _ => {
            BiquadCoeffs {
                a1: a1 as i64,
                a2: a2 as i64,
                b0: alpha as i64,
                b1: 0,
                b2: q24_neg(alpha) as i64,
            }
        },
    }
}

/// Whether a filter type has a synthesis formula.
pub open spec fn synthesizable(filt_type: CommonFilters) -> bool {
    !(filt_type is Bandstop)
}

/// Synthesize the cookbook coefficients for the requested response from
/// already-validated parameters: cutoff in millihertz no higher than
/// Nyquist, Q in (exclusive) `(0, 20)` as milli-units, sample rate in
/// hertz inside `(0, 196000)`. The band-stop response has no formula here
/// and is reported as unsupported rather than silently zeroed.
pub fn calculate_coeffs(
    filt_type: CommonFilters,
    cutoff_mhz: u64,
    q_millis: u32,
    sample_rate: u32,
) -> (r: Result<BiquadCoeffs, GeneratorError>)
    requires
        0 < q_millis < 20000,
        0 < sample_rate < 196000,
        cutoff_mhz <= 500 * sample_rate,
    ensures
        synthesizable(filt_type) ==> (r matches Ok(c) && c == coeffs_spec(
            filt_type,
            cutoff_mhz as int,
            q_millis as int,
            sample_rate as int,
        )),
        !synthesizable(filt_type) ==> (r matches Err(e) && e.kind
            == ErrorKind::UnsupportedFilterType),
{
    match filt_type {
        CommonFilters::Bandstop => Err(
            GeneratorError::with_kind(
                ErrorKind::UnsupportedFilterType,
                "[ERROR] no synthesis formula for the requested filter type",
            ),
        ),
        _ => {
            let w: i64 = phase_q24(cutoff_mhz, sample_rate);
            let sw: i64 = sin_fx(w);
            let cw: i64 = cos_fx(w);
            proof {
                assert((q_millis as int) * (SCALE_Q24 as int) < 20000 * (SCALE_Q24 as int))
                    by (nonlinear_arith)
                    requires
                        q_millis < 20000,
                ;
            }
            let q_raw: i64 = ((q_millis as u64) * (SCALE_Q24 as u64) / 1000) as i64;
            let alpha: i64 = fx_div(sw, 2 * q_raw);
            let a1: i64 = fx_neg(fx_add(cw, cw));
            let a2: i64 = fx_sub(ONE_Q24, alpha);
            match filt_type {
                CommonFilters::Lowpass => {
                    let b1: i64 = fx_sub(ONE_Q24, cw);
                    let b0: i64 = fx_half(b1);
                    Ok(BiquadCoeffs { a1, a2, b0, b1, b2: b0 })
                },
                CommonFilters::Highpass => {
                    let t: i64 = fx_add(ONE_Q24, cw);
                    let b0: i64 = fx_half(t);
                    let b1: i64 = fx_neg(t);
                    Ok(BiquadCoeffs { a1, a2, b0, b1, b2: b0 })
                },
                _ => Ok(BiquadCoeffs { a1, a2, b0: alpha, b1: 0, b2: fx_neg(alpha) }),
            }
        },
    }
}

} // verus!
