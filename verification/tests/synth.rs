use brown_noise::synth::{
    generate_brown_noise, num_samples, quantize, GenerationParameters, NoiseSynthesizer,
};

const SCALE: i64 = 1_000_000_000;

fn params(duration: i64, sample_rate: u32, amplitude: i64) -> GenerationParameters {
    GenerationParameters { duration, sample_rate, amplitude }
}

#[test]
fn scenario_hand_computed() {
    // One second at 4 Hz, amplitude 0.5, draws 1.0, 0.0, -1.0, 0.0.
    let p = params(SCALE, 4, SCALE / 2);
    assert_eq!(num_samples(&p), 4);
    let whites: Vec<i64> = vec![SCALE, 0, -SCALE, 0];
    let out = generate_brown_noise(&p, &whites);
    assert_eq!(out, vec![24, 24, 0, 0]);
}

#[test]
fn scenario_filter_levels() {
    // The filter levels behind the scenario, one leaky-integrator step at
    // a time: 0.01, 0.0099, -0.000199, -0.00019701 in units of 1e-9.
    let mut synth = NoiseSynthesizer::new(SCALE / 2);
    assert_eq!(synth.y_prev, 0);
    let s0: i16 = synth.next_sample(SCALE);
    assert_eq!(synth.y_prev, 10_000_000);
    assert_eq!(s0, 24);
    let s1: i16 = synth.next_sample(0);
    assert_eq!(synth.y_prev, 9_900_000);
    assert_eq!(s1, 24);
    let s2: i16 = synth.next_sample(-SCALE);
    assert_eq!(synth.y_prev, -199_000);
    assert_eq!(s2, 0);
    let s3: i16 = synth.next_sample(0);
    assert_eq!(synth.y_prev, -197_010);
    assert_eq!(s3, 0);
}

#[test]
fn sample_count_formula() {
    // floor(duration * sample_rate) in fixed-point seconds times Hz.
    assert_eq!(num_samples(&params(10 * SCALE, 44100, SCALE / 2)), 441_000);
    assert_eq!(num_samples(&params(2 * SCALE + SCALE / 2, 10, SCALE)), 25);
    assert_eq!(num_samples(&params(SCALE / 3, 3, SCALE)), 0);
    assert_eq!(num_samples(&params(1, 1, SCALE)), 0);
    assert_eq!(num_samples(&params(SCALE, 1, SCALE)), 1);
}

#[test]
fn sample_count_degenerate() {
    assert_eq!(num_samples(&params(0, 44100, SCALE)), 0);
    assert_eq!(num_samples(&params(-5 * SCALE, 44100, SCALE)), 0);
    assert_eq!(num_samples(&params(10 * SCALE, 0, SCALE)), 0);
    let out = generate_brown_noise(&params(0, 44100, SCALE), &Vec::new());
    assert!(out.is_empty());
}

#[test]
fn deterministic_for_fixed_draws() {
    let p = params(2 * SCALE, 3, 700_000_000);
    let whites: Vec<i64> = vec![SCALE, -SCALE / 2, SCALE / 4, -SCALE / 8, SCALE / 16, 0];
    let a = generate_brown_noise(&p, &whites);
    let b = generate_brown_noise(&p, &whites);
    assert_eq!(a, b);
    assert_eq!(a.len(), 6);
}

#[test]
fn amplitude_doubling_within_one() {
    let whites: Vec<i64> =
        vec![SCALE, -SCALE / 2, 2 * SCALE, -SCALE, SCALE / 3, SCALE / 7, -2 * SCALE, 0];
    let n: u32 = whites.len() as u32;
    let half = generate_brown_noise(&params(SCALE, n, SCALE / 4), &whites);
    let full = generate_brown_noise(&params(SCALE, n, SCALE / 2), &whites);
    for i in 0..whites.len() {
        let doubled: i32 = 2 * i32::from(half[i]);
        let got: i32 = i32::from(full[i]);
        assert!((got - doubled).abs() <= 1, "index {i}: {got} vs 2*{}", half[i]);
    }
}

#[test]
fn saturates_at_the_rails() {
    // Amplitudes far beyond full scale pin the output to the 16-bit rails
    // instead of overflowing.
    let p = params(SCALE, 2, i64::MAX);
    let whites: Vec<i64> = vec![SCALE, -2 * SCALE];
    let out = generate_brown_noise(&p, &whites);
    assert_eq!(out, vec![i16::MAX, i16::MIN]);
    for s in &out {
        assert!(i16::MIN <= *s && *s <= i16::MAX);
    }
}

#[test]
fn negative_amplitude_flips_sign() {
    let whites: Vec<i64> = vec![SCALE, SCALE];
    let pos = generate_brown_noise(&params(SCALE, 2, SCALE / 2), &whites);
    let neg = generate_brown_noise(&params(SCALE, 2, -SCALE / 2), &whites);
    assert_eq!(pos, vec![24, 48]);
    assert_eq!(neg, vec![-24, -48]);
}

#[test]
fn zero_draws_give_silence() {
    let p = params(SCALE, 5, SCALE / 2);
    let whites: Vec<i64> = vec![0; 5];
    let out = generate_brown_noise(&p, &whites);
    assert_eq!(out, vec![0; 5]);
    let mut synth = NoiseSynthesizer::new(SCALE / 2);
    for _ in 0..5 {
        assert_eq!(synth.next_sample(0), 0);
        assert_eq!(synth.y_prev, 0);
    }
}

#[test]
fn causal_in_the_draws() {
    // Two draw sequences that agree on the first two draws produce the
    // same first two samples; a later draw changes nothing earlier.
    let p = params(SCALE, 5, SCALE / 2);
    let w1: Vec<i64> = vec![300_000_000, -200_000_000, 0, 0, 0];
    let w2: Vec<i64> = vec![300_000_000, -200_000_000, 700_000_000, -SCALE, 200_000_000];
    let a = generate_brown_noise(&p, &w1);
    let b = generate_brown_noise(&p, &w2);
    assert_eq!(a[0], b[0]);
    assert_eq!(a[1], b[1]);
    assert_ne!(a[2], b[2]);
}

#[test]
fn quantize_exact_values() {
    // Full-scale level at full amplitude: 1.0 * 0.15 * 32767 = 4915.05,
    // truncated toward zero.
    assert_eq!(quantize(SCALE, SCALE), 4915);
    assert_eq!(quantize(-SCALE, SCALE), -4915);
    assert_eq!(quantize(0, SCALE), 0);
    assert_eq!(quantize(SCALE, 0), 0);
    // 0.01 * 0.075 * 32767 = 24.575, the first scenario sample.
    assert_eq!(quantize(SCALE / 100, SCALE / 2), 24);
    assert_eq!(quantize(i64::MAX, i64::MAX), i16::MAX);
    assert_eq!(quantize(i64::MAX, i64::MIN), i16::MIN);
    assert_eq!(quantize(i64::MIN, i64::MIN), i16::MAX);
}
