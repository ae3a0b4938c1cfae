//! Brown-noise synthesis.
//!
//! The signal path is a leaky integrator driven by white noise, followed by
//! amplitude normalization and quantization to signed 16-bit samples.  All
//! levels are carried as 64-bit fixed-point numbers (multiples of 1e-9), so
//! the whole numeric path is exact integer arithmetic with a single,
//! documented rounding rule: round toward zero.

pub mod fixed;
pub mod laws;
pub mod synth;
