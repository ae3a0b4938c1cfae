//! Properties of the synthesis pipeline, stated and proved over the same
//! spec functions the executable contracts use.

use crate::fixed::{lemma_tdiv_double, tdiv};
use crate::synth::{
    spec_clamp16, spec_filter_step, spec_quantize, spec_quantize_raw, spec_sample_at,
    spec_sample_count, spec_y_at, ALPHA_DEN, QUANT_DEN, QUANT_NUM,
};
use vstd::arithmetic::div_mod::lemma_div_of0;
use vstd::prelude::*;

verus! {

/// Degenerate parameters produce no samples: a non-positive duration or a
/// zero sample rate makes the sample count zero.
pub proof fn lemma_sample_count_degenerate(duration: int, sample_rate: int)
    requires
        duration <= 0 || sample_rate <= 0,
    ensures
        spec_sample_count(duration, sample_rate) == 0,
{
}

/// The output is a function of the parameters and the white-noise draws
/// alone: runs over equal draws at equal amplitudes agree everywhere.
pub proof fn lemma_structural_determinism(
    w1: Seq<i64>,
    w2: Seq<i64>,
    amp1: int,
    amp2: int,
    n: int,
)
    requires
        w1 == w2,
        amp1 == amp2,
    ensures
        spec_sample_at(w1, amp1, n) == spec_sample_at(w2, amp2, n),
{
}

/// Every quantized sample lies in the signed 16-bit range, whatever the
/// level and the amplitude.
pub proof fn lemma_sample_bounded(y: int, amplitude: int)
    ensures
        i16::MIN <= spec_quantize(y, amplitude) <= i16::MAX,
{
}

/// The filter is causal: the level after draw `n` depends only on draws
/// `0..=n`, so two draw sequences that agree up to `n` give the same level
/// and the same sample there.
pub proof fn lemma_filter_causality(w1: Seq<i64>, w2: Seq<i64>, amplitude: int, n: int)
    requires
        0 <= n < w1.len(),
        n < w2.len(),
        forall|i: int| 0 <= i <= n ==> w1[i] == w2[i],
    ensures
        spec_y_at(w1, n) == spec_y_at(w2, n),
        spec_sample_at(w1, amplitude, n) == spec_sample_at(w2, amplitude, n),
    decreases n,
{
    if n > 0 {
        lemma_filter_causality(w1, w2, amplitude, n - 1);
    } else {
        assert(spec_y_at(w1, -1) == 0);
        assert(spec_y_at(w2, -1) == 0);
    }
    assert(w1[n] == w2[n]);
    assert(spec_y_at(w1, n) == spec_filter_step(spec_y_at(w1, n - 1), w1[n] as int));
    assert(spec_y_at(w2, n) == spec_filter_step(spec_y_at(w2, n - 1), w2[n] as int));
}

/// Zero excitation is zero output: if every draw up to `n` is zero, the
/// filter level and the sample at `n` are exactly zero.
pub proof fn lemma_zero_input_silence(w: Seq<i64>, amplitude: int, n: int)
    requires
        0 <= n < w.len(),
        forall|i: int| 0 <= i <= n ==> w[i] == 0,
    ensures
        spec_y_at(w, n) == 0,
        spec_sample_at(w, amplitude, n) == 0,
    decreases n,
{
    if n > 0 {
        lemma_zero_input_silence(w, amplitude, n - 1);
    } else {
        assert(spec_y_at(w, -1) == 0);
    }
    lemma_div_of0(ALPHA_DEN as int);
    lemma_div_of0(QUANT_DEN as int);
    assert(w[n] == 0);
    assert(spec_y_at(w, n) == spec_filter_step(spec_y_at(w, n - 1), w[n] as int));
    assert(spec_y_at(w, n) == tdiv(0, ALPHA_DEN as int));
    assert(spec_quantize_raw(0, amplitude) == tdiv(0 * amplitude * QUANT_NUM, QUANT_DEN as int));
}

/// Doubling the amplitude doubles every non-clipping sample, to within one
/// quantization unit: the scaled level is one truncation of an exact
/// rational that is linear in the amplitude.
pub proof fn lemma_amplitude_doubling(y: int, amplitude: int)
    requires
        i16::MIN <= spec_quantize_raw(y, 2 * amplitude) <= i16::MAX,
    ensures
        -1 <= spec_quantize(y, 2 * amplitude) - 2 * spec_quantize(y, amplitude) <= 1,
{
    let x: int = y * amplitude * QUANT_NUM;
    assert(y * (2 * amplitude) * QUANT_NUM == 2 * (y * amplitude * QUANT_NUM))
        by (nonlinear_arith);
    lemma_tdiv_double(x, QUANT_DEN as int);
    let raw1: int = spec_quantize_raw(y, amplitude);
    let raw2: int = spec_quantize_raw(y, 2 * amplitude);
    assert(2 * raw1 - 1 <= raw2 <= 2 * raw1 + 1);
    assert(spec_clamp16(raw1) == raw1);
    assert(spec_clamp16(raw2) == raw2);
}

/// The per-sample form of amplitude doubling: at every step whose doubled
/// sample does not clip, the doubled-amplitude sample is twice the
/// original one to within one quantization unit.
pub proof fn lemma_amplitude_doubling_sample(w: Seq<i64>, amplitude: int, n: int)
    requires
        i16::MIN <= spec_quantize_raw(spec_y_at(w, n), 2 * amplitude) <= i16::MAX,
    ensures
        -1 <= spec_sample_at(w, 2 * amplitude, n) - 2 * spec_sample_at(w, amplitude, n) <= 1,
{
    lemma_amplitude_doubling(spec_y_at(w, n), amplitude);
}

} // verus!
