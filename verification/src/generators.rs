//! Noise-through-filter generator and its error type.
//!
//! The [`Resonator`] owns one recursive filter and the parameters that
//! produced its current coefficients. Every successful setter revalidates
//! and resynthesizes the full coefficient set from the full current
//! parameter set, so the coefficients are never stale; every failed setter
//! leaves the whole state untouched.

use vstd::prelude::*;
use crate::biquads::{
    Biquad, BiquadCoeffs, CommonFilters, DirectFormII, calculate_coeffs, coeffs_spec,
    step_output, synthesizable,
};
use crate::fixed::{ONE_Q24, unit_clamp, fx_unit_clamp};

verus! {

/// What went wrong in a parameter update.
#[derive(Clone, Copy, Debug, PartialEq, Eq, Structural)]
pub enum ErrorKind {
    /// A value fell outside its documented range (cutoff above Nyquist,
    /// Q outside `[0, 20)`, sample rate outside `(0, 196000)`, MIDI note
    /// outside `[21, 108]`).
    OutOfRange,
    /// A filter variant with no synthesis formula was requested.
    UnsupportedFilterType,
    /// Parameters that are individually in range but cannot be combined,
    /// such as a zero Q feeding the division in coefficient synthesis.
    InvalidParameterCombination,
}

/// A typed, descriptive validation error. Setters return it and leave
/// their receiver untouched.
#[derive(Debug, PartialEq, Eq)]
pub struct GeneratorError {
    pub kind: ErrorKind,
    pub details: String,
}

impl GeneratorError {
    /// A range error with a descriptive message.
    pub fn new(msg: &str) -> (e: GeneratorError)
        ensures
            e.kind == ErrorKind::OutOfRange,
            e.details@ == msg@,
    {
        GeneratorError { kind: ErrorKind::OutOfRange, details: msg.to_owned() }
    }

    /// An error of the given kind with a descriptive message.
    pub fn with_kind(kind: ErrorKind, msg: &str) -> (e: GeneratorError)
        ensures
            e.kind == kind,
            e.details@ == msg@,
    {
        GeneratorError { kind, details: msg.to_owned() }
    }

    /// The descriptive message.
    pub fn message(&self) -> (m: &str)
        ensures
            m@ == self.details@,
    {
        self.details.as_str()
    }
}

/// Relies on rand::random_range: the result of sampling the thread-local
/// generator over a non-empty closed range lies inside that range.
#[verifier::external_body]
fn random_in_range(lo: i64, hi: i64) -> (r: i64)
    requires
        lo <= hi,
    ensures
        lo <= r <= hi,
{
    rand::random_range(lo..=hi)
}

/// A source of one sample per call.
pub trait Generator {
    fn generate(&mut self) -> i64;
}

/// A noise-through-filter voice: one recursive filter, its active
/// coefficients, and the parameters they were synthesized from.
#[derive(Clone, Copy, Debug, PartialEq, Eq, Structural)]
pub struct Resonator {
    pub biquad: DirectFormII,
    pub coeffs: BiquadCoeffs,
    pub filt_type: CommonFilters,
    pub cutoff_mhz: u64,
    pub sample_rate: u32,
    pub q_millis: u32,
}

impl Resonator {
    /// Well-formedness: the parameters lie in their documented ranges and
    /// the coefficients are exactly the ones synthesized from them — never
    /// stale.
    pub open spec fn wf(&self) -> bool {
        &&& 0 < self.q_millis < 20000
        &&& 0 < self.sample_rate < 196000
        &&& self.cutoff_mhz <= 500 * self.sample_rate
        &&& synthesizable(self.filt_type)
        &&& self.coeffs == coeffs_spec(
            self.filt_type,
            self.cutoff_mhz as int,
            self.q_millis as int,
            self.sample_rate as int,
        )
    }

    /// The default voice: a band-pass response at 1000 Hz, Q 1.0,
    /// 44100 Hz, with a quiescent filter.
    pub fn new() -> (r: Resonator)
        ensures
            r.wf(),
            r.filt_type == CommonFilters::Bandpass,
            r.cutoff_mhz == 1000000 && r.q_millis == 1000 && r.sample_rate == 44100,
            r.biquad.x1 == 0 && r.biquad.x2 == 0 && r.biquad.y1 == 0 && r.biquad.y2 == 0,
    {
        let biquad = DirectFormII::new();
        let coeffs: BiquadCoeffs = match calculate_coeffs(
            CommonFilters::Bandpass,
            1000000,
            1000,
            44100,
        ) {
            Ok(c) => c,
            Err(_) => unreached(),
        };
        Resonator {
            biquad,
            coeffs,
            filt_type: CommonFilters::Bandpass,
            cutoff_mhz: 1000000,
            sample_rate: 44100,
            q_millis: 1000,
        }
    }

    /// Move the cutoff frequency (in millihertz). A cutoff above Nyquist
    /// is rejected with an out-of-range error and nothing changes; on
    /// success the coefficients are resynthesized from the full current
    /// parameter set. Setting the active value again is a no-op.
    pub fn set_cutoff(&mut self, f_cut_mhz: u64) -> (r: Result<(), GeneratorError>)
        requires
            old(self).wf(),
        ensures
            final(self).wf(),
            (f_cut_mhz <= 500 * old(self).sample_rate) <==> r is Ok,
            r is Ok ==> final(self).cutoff_mhz == f_cut_mhz
                && final(self).q_millis == old(self).q_millis
                && final(self).sample_rate == old(self).sample_rate
                && final(self).filt_type == old(self).filt_type
                && final(self).biquad == old(self).biquad
                && final(self).coeffs == coeffs_spec(
                old(self).filt_type,
                f_cut_mhz as int,
                old(self).q_millis as int,
                old(self).sample_rate as int,
            ),
            r is Err ==> *final(self) == *old(self),
            r matches Err(e) ==> e.kind == ErrorKind::OutOfRange,
            f_cut_mhz == old(self).cutoff_mhz ==> *final(self) == *old(self),
    {
        let nyquist_mhz: u64 = 500 * (self.sample_rate as u64);
        if f_cut_mhz <= nyquist_mhz {
            match calculate_coeffs(self.filt_type, f_cut_mhz, self.q_millis, self.sample_rate) {
                Ok(c) => {
                    self.coeffs = c;
                    self.cutoff_mhz = f_cut_mhz;
                    Ok(())
                },
                Err(_) => unreached(),
            }
        } else {
            Err(GeneratorError::new("[ERROR] requested frequency is out of range"))
        }
    }

    /// Change the resonance, in milli-units of Q. Zero would divide by
    /// zero in synthesis and is rejected as an invalid combination; a Q of
    /// twenty or more is out of range; otherwise the coefficients are
    /// resynthesized from the full current parameter set. Setting the
    /// active value again is a no-op.
    pub fn set_qfactor(&mut self, q_fact_millis: u32) -> (r: Result<(), GeneratorError>)
        requires
            old(self).wf(),
        ensures
            final(self).wf(),
            (0 < q_fact_millis < 20000) <==> r is Ok,
            r is Ok ==> final(self).q_millis == q_fact_millis
                && final(self).cutoff_mhz == old(self).cutoff_mhz
                && final(self).sample_rate == old(self).sample_rate
                && final(self).filt_type == old(self).filt_type
                && final(self).biquad == old(self).biquad
                && final(self).coeffs == coeffs_spec(
                old(self).filt_type,
                old(self).cutoff_mhz as int,
                q_fact_millis as int,
                old(self).sample_rate as int,
            ),
            r is Err ==> *final(self) == *old(self),
            q_fact_millis == 0 ==> (r matches Err(e)
                && e.kind == ErrorKind::InvalidParameterCombination),
            q_fact_millis >= 20000 ==> (r matches Err(e) && e.kind == ErrorKind::OutOfRange),
            q_fact_millis == old(self).q_millis ==> *final(self) == *old(self),
    {
        if q_fact_millis == 0 {
            Err(
                GeneratorError::with_kind(
                    ErrorKind::InvalidParameterCombination,
                    "[ERROR] Q value must be positive",
                ),
            )
        } else if q_fact_millis < 20000 {
            match calculate_coeffs(
                self.filt_type,
                self.cutoff_mhz,
                q_fact_millis,
                self.sample_rate,
            ) {
                Ok(c) => {
                    self.coeffs = c;
                    self.q_millis = q_fact_millis;
                    Ok(())
                },
                Err(_) => unreached(),
            }
        } else {
            Err(GeneratorError::new("[ERROR] Q value out of range"))
        }
    }

    /// Change the sample rate, in hertz. A rate outside `(0, 196000)` is
    /// out of range; a rate whose Nyquist falls below the active cutoff is
    /// an invalid combination; otherwise the coefficients are
    /// resynthesized from the full current parameter set. Setting the
    /// active value again is a no-op.
    pub fn set_samplerate(&mut self, s_rate: u32) -> (r: Result<(), GeneratorError>)
        requires
            old(self).wf(),
        ensures
            final(self).wf(),
            (0 < s_rate < 196000 && old(self).cutoff_mhz <= 500 * s_rate) <==> r is Ok,
            r is Ok ==> final(self).sample_rate == s_rate
                && final(self).cutoff_mhz == old(self).cutoff_mhz
                && final(self).q_millis == old(self).q_millis
                && final(self).filt_type == old(self).filt_type
                && final(self).biquad == old(self).biquad
                && final(self).coeffs == coeffs_spec(
                old(self).filt_type,
                old(self).cutoff_mhz as int,
                old(self).q_millis as int,
                s_rate as int,
            ),
            r is Err ==> *final(self) == *old(self),
            !(0 < s_rate < 196000) ==> (r matches Err(e) && e.kind == ErrorKind::OutOfRange),
            (0 < s_rate < 196000 && old(self).cutoff_mhz > 500 * s_rate) ==> (r matches Err(e)
                && e.kind == ErrorKind::InvalidParameterCombination),
            s_rate == old(self).sample_rate ==> *final(self) == *old(self),
    {
        if s_rate == 0 || s_rate >= 196000 {
            Err(GeneratorError::new("[ERROR] sample rate out of range"))
        } else if self.cutoff_mhz > 500 * (s_rate as u64) {
            Err(
                GeneratorError::with_kind(
                    ErrorKind::InvalidParameterCombination,
                    "[ERROR] active cutoff exceeds Nyquist at the requested sample rate",
                ),
            )
        } else {
            match calculate_coeffs(self.filt_type, self.cutoff_mhz, self.q_millis, s_rate) {
                Ok(c) => {
                    self.coeffs = c;
                    self.sample_rate = s_rate;
                    Ok(())
                },
                Err(_) => unreached(),
            }
        }
    }
}

/// One generated sample: some noise value `n` in the unit band went
/// through one filtering step against the pre-call coefficients, the delay
/// line advanced accordingly, and the published sample is the step output
/// clamped to the unit band.
pub open spec fn generate_step(pre: Resonator, post: Resonator, sample: i64, n: i64) -> bool {
    &&& -ONE_Q24 <= n <= ONE_Q24
    &&& post.biquad.x1 == n
    &&& post.biquad.x2 == pre.biquad.x1
    &&& post.biquad.y1 as int == step_output(pre.biquad, pre.coeffs, n as int)
    &&& post.biquad.y2 == pre.biquad.y1
    &&& sample as int == unit_clamp(step_output(pre.biquad, pre.coeffs, n as int))
}

impl Generator for Resonator {
    /// Generate one filtered-noise sample: draw a uniformly distributed
    /// noise value in the unit band, run it through the owned filter with
    /// the current coefficients, and clamp the published sample back into
    /// the unit band. Allocation-free, non-blocking, and infallible; the
    /// parameters and coefficients are untouched.
    fn generate(&mut self) -> (sample: i64)
        ensures
            old(self).wf() ==> final(self).wf(),
            -ONE_Q24 <= sample <= ONE_Q24,
            final(self).coeffs == old(self).coeffs,
            final(self).filt_type == old(self).filt_type,
            final(self).cutoff_mhz == old(self).cutoff_mhz,
            final(self).sample_rate == old(self).sample_rate,
            final(self).q_millis == old(self).q_millis,
            exists|n: i64| generate_step(*old(self), *final(self), sample, n),
    {
        let noise: i64 = random_in_range(-ONE_Q24, ONE_Q24);
        let raw: i64 = self.biquad.filter(noise, &self.coeffs);
        let sample: i64 = fx_unit_clamp(raw);
        proof {
            assert(generate_step(*old(self), *self, sample, noise));
        }
        sample
    }
}

} // verus!
