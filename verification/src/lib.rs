//! A small subtractive-synthesis audio core: biquad filter coefficients are
//! synthesized from musical parameters, applied through a recursive filter,
//! and the filtered-noise samples are published into a bounded
//! single-producer/single-consumer queue.
//!
//! All signal values (samples, coefficients, phases) are Q24 fixed-point
//! numbers: an `i64` raw value stands for `raw / 2^24`.

pub mod fixed;
pub mod trig;
pub mod biquads;
pub mod generators;
pub mod engine;
