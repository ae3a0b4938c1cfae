//! The brown-noise synthesizer.
//!
//! White noise is colored by a leaky integrator,
//! `y[n] = alpha * y[n-1] + (1 - alpha) * white[n]` with `alpha = 0.99` and
//! `y[-1] = 0`, then scaled by `amplitude * 0.15` and quantized to a signed
//! 16-bit sample by multiplying with 32767 and rounding toward zero, with
//! saturation at the 16-bit rails.
//!
//! Levels are fixed-point numbers in units of 1e-9 (see [`crate::fixed`]),
//! so the filter step is the exact integer recurrence
//! `y[n] = tdiv(99 * y[n-1] + white[n], 100)`, and scaling plus quantization
//! is a single truncation of the exact rational
//! `y * amplitude * 15 * 32767 / (100 * SCALE * SCALE)`.

use crate::fixed::{
    lemma_tdiv_bounds, lemma_tdiv_neg, lemma_tdiv_ordered_nonneg, tdiv, tdiv_i128, SCALE,
};
use vstd::arithmetic::div_mod::{lemma_div_multiples_vanish, lemma_div_pos_is_pos};
use vstd::arithmetic::mul::{lemma_mul_strictly_positive, lemma_mul_upper_bound};
use vstd::prelude::*;

verus! {

/// Numerator of the leaky-integrator coefficient `alpha = 99/100`.
pub const ALPHA_NUM: i64 = 99;

/// Denominator of the leaky-integrator coefficient.
pub const ALPHA_DEN: i64 = 100;

/// Numerator applied when a filter level is quantized: the 0.15
/// normalization numerator times the 16-bit full-scale factor, 15 * 32767.
pub const QUANT_NUM: i128 = 15 * 32767;

/// Denominator applied when a filter level is quantized: the 0.15
/// normalization denominator times `SCALE` squared (one `SCALE` for the
/// level, one for the amplitude), 100 * 1e9 * 1e9.
pub const QUANT_DEN: i128 = 100_000_000_000_000_000_000;

/// Beyond this magnitude of the product `y * amplitude`, the quantized
/// sample is pinned to a 16-bit rail, so the executable quantizer may
/// saturate without forming the full product with `QUANT_NUM`.
const SAT_BOUND: i128 = 10_000_000_000_000_000_000_000;

/// The parameters of one generation run.  `duration` and `amplitude` are
/// fixed-point numbers in units of 1e-9; `amplitude` is meant to lie in
/// (0, SCALE] but any value is honored, out-of-range ones merely saturate
/// or silence the output.
#[derive(Clone, Copy, Debug)]
pub struct GenerationParameters {
    /// Duration of the run in fixed-point seconds.
    pub duration: i64,
    /// Sample rate in Hz.
    pub sample_rate: u32,
    /// Output amplitude as a fixed-point fraction of full scale.
    pub amplitude: i64,
}

/// One filter update: `y' = tdiv(99 * y + white, 100)`, the fixed-point
/// form of `y' = 0.99 * y + 0.01 * white`.
pub open spec fn spec_filter_step(y_prev: int, white: int) -> int {
    tdiv(ALPHA_NUM * y_prev + white, ALPHA_DEN as int)
}

/// The filter level after consuming draws `0..=n`, from the initial level 0.
pub open spec fn spec_y_at(whites: Seq<i64>, n: int) -> int
    decreases n + 1,
{
    if n < 0 {
        0
    } else {
        spec_filter_step(spec_y_at(whites, n - 1), whites[n] as int)
    }
}

/// Saturation to the signed 16-bit range.
pub open spec fn spec_clamp16(v: int) -> int {
    if v > i16::MAX {
        i16::MAX as int
    } else if v < i16::MIN {
        i16::MIN as int
    } else {
        v
    }
}

/// The scaled level before saturation: one truncation of the exact
/// rational `y * amplitude * 0.15 * 32767` (both factors carry a `SCALE`).
pub open spec fn spec_quantize_raw(y: int, amplitude: int) -> int {
    tdiv(y * amplitude * QUANT_NUM, QUANT_DEN as int)
}

/// A quantized sample: the scaled level, saturated to 16 bits.
pub open spec fn spec_quantize(y: int, amplitude: int) -> int {
    spec_clamp16(spec_quantize_raw(y, amplitude))
}

/// The n-th output sample of a run over `whites` at a given amplitude.
pub open spec fn spec_sample_at(whites: Seq<i64>, amplitude: int, n: int) -> int {
    spec_quantize(spec_y_at(whites, n), amplitude)
}

/// How many samples a run produces: `floor(duration * sample_rate)` in
/// seconds times Hz, clamped below at zero for degenerate parameters.
pub open spec fn spec_sample_count(duration: int, sample_rate: int) -> int {
    if duration <= 0 || sample_rate <= 0 {
        0
    } else {
        (duration * sample_rate) / (SCALE as int)
    }
}

/// The filter state of one generation run: the previous output level and
/// the amplitude the run was started with.
pub struct NoiseSynthesizer {
    /// The level the filter produced for the previous sample (0 at start).
    pub y_prev: i64,
    /// Fixed-point amplitude, fixed for the whole run.
    pub amplitude: i64,
}

/// Number of samples for the given parameters.
pub fn num_samples(params: &GenerationParameters) -> (n: usize)
    requires
        spec_sample_count(params.duration as int, params.sample_rate as int) <= usize::MAX,
    ensures
        n == spec_sample_count(params.duration as int, params.sample_rate as int),
        params.duration <= 0 || params.sample_rate == 0 ==> n == 0,
{
    if params.duration <= 0 || params.sample_rate == 0 {
        return 0;
    }
    let p: i128 = (params.duration as i128) * (params.sample_rate as i128);
    proof {
        lemma_mul_strictly_positive(params.duration as int, params.sample_rate as int);
        lemma_mul_upper_bound(
            params.duration as int,
            i64::MAX as int,
            params.sample_rate as int,
            u32::MAX as int,
        );
    }
    let q: u128 = (p as u128) / (SCALE as u128);
    proof {
        lemma_div_pos_is_pos(p as int, SCALE as int);
    }
    q as usize
}

/// Scale a filter level by the amplitude and quantize it to a sample.
pub fn quantize(y: i64, amplitude: i64) -> (s: i16)
    ensures
        s as int == spec_quantize(y as int, amplitude as int),
{
    proof {
        assert(-(9223372036854775808 * 9223372036854775808) <= (y as int) * (amplitude as int)
            <= 9223372036854775808 * 9223372036854775808) by (nonlinear_arith)
            requires
                i64::MIN <= y <= i64::MAX,
                i64::MIN <= amplitude <= i64::MAX,
        ;
    }
    let p: i128 = (y as i128) * (amplitude as i128);
    if p >= SAT_BOUND {
        proof {
            lemma_tdiv_ordered_nonneg(SAT_BOUND * QUANT_NUM, p as int * QUANT_NUM, QUANT_DEN as int);
            lemma_div_multiples_vanish(100 * QUANT_NUM, QUANT_DEN as int);
        }
        i16::MAX
    } else if p <= -SAT_BOUND {
        proof {
            lemma_tdiv_neg(p as int * QUANT_NUM, QUANT_DEN as int);
            lemma_tdiv_ordered_nonneg(
                SAT_BOUND * QUANT_NUM,
                -(p as int) * QUANT_NUM,
                QUANT_DEN as int,
            );
            lemma_div_multiples_vanish(100 * QUANT_NUM, QUANT_DEN as int);
        }
        i16::MIN
    } else {
        let raw: i128 = tdiv_i128(p * QUANT_NUM, QUANT_DEN);
        if raw > i16::MAX as i128 {
            i16::MAX
        } else if raw < i16::MIN as i128 {
            i16::MIN
        } else {
            raw as i16
        }
    }
}

impl NoiseSynthesizer {
    /// A fresh run: filter level 0, the given fixed-point amplitude.
    pub fn new(amplitude: i64) -> (s: Self)
        ensures
            s.y_prev == 0,
            s.amplitude == amplitude,
    {
        NoiseSynthesizer { y_prev: 0, amplitude }
    }

    /// Consume one white-noise draw: advance the filter and return the
    /// quantized sample for the new level.
    pub fn next_sample(&mut self, white: i64) -> (s: i16)
        ensures
            final(self).y_prev as int == spec_filter_step(old(self).y_prev as int, white as int),
            final(self).amplitude == old(self).amplitude,
            s as int == spec_quantize(final(self).y_prev as int, old(self).amplitude as int),
    {
        proof {
            assert(-(99 * 9223372036854775808) <= (ALPHA_NUM as int) * (self.y_prev as int)
                <= 99 * 9223372036854775808) by (nonlinear_arith)
                requires
                    i64::MIN <= self.y_prev <= i64::MAX,
                    ALPHA_NUM == 99,
            ;
        }
        let acc: i128 = (ALPHA_NUM as i128) * (self.y_prev as i128) + (white as i128);
        let y_new: i128 = tdiv_i128(acc, ALPHA_DEN as i128);
        proof {
            lemma_tdiv_bounds(acc as int, ALPHA_DEN as int, i64::MIN as int, i64::MAX as int);
        }
        self.y_prev = y_new as i64;
        quantize(self.y_prev, self.amplitude)
    }
}

/// Run the whole synthesis: one output sample per white-noise draw, the
/// draws being exactly as many as the parameters call for.
pub fn generate_brown_noise(params: &GenerationParameters, whites: &Vec<i64>) -> (out: Vec<i16>)
    requires
        whites@.len() == spec_sample_count(params.duration as int, params.sample_rate as int),
    ensures
        out@.len() == whites@.len(),
        forall|n: int|
            0 <= n < out@.len() ==> out@[n] as int == #[trigger] spec_sample_at(
                whites@,
                params.amplitude as int,
                n,
            ),
{
    let mut synth = NoiseSynthesizer::new(params.amplitude);
    let mut out: Vec<i16> = Vec::new();
    let n: usize = whites.len();
    let mut i: usize = 0;
    while i < n
        invariant
            n == whites@.len(),
            i <= n,
            out@.len() == i,
            synth.amplitude == params.amplitude,
            synth.y_prev as int == spec_y_at(whites@, i as int - 1),
            forall|k: int|
                0 <= k < i ==> out@[k] as int == #[trigger] spec_sample_at(
                    whites@,
                    params.amplitude as int,
                    k,
                ),
        decreases n - i,
    {
        let s: i16 = synth.next_sample(whites[i]);
        out.push(s);
        i += 1;
    }
    out
}

} // verus!
