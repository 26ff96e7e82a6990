//! Tests of the oscillator, filter and compressor stages.

use fm_voice::dynamics::Compressor;
use fm_voice::filter::Biquad;
use fm_voice::osc::{advance_phase, phase_step, sine_q16};

#[test]
fn sine_reference_points() {
    assert_eq!(sine_q16(0), 0);
    assert_eq!(sine_q16(0x4000_0000), 65_536);
    assert_eq!(sine_q16(0x8000_0000), 0);
    assert_eq!(sine_q16(0xC000_0000), -65_536);
}

#[test]
fn oscillator_phase_wraps_and_samples_stay_finite() {
    // A 440 Hz oscillator at 44100 Hz for 100 samples: the phase is a
    // u32 fraction of a cycle, so it is in [0, 1) of a cycle throughout,
    // and every sample stays within full scale.
    let step = phase_step(440_000, 44_100);
    let mut phase: u32 = 0;
    for _ in 0..100 {
        phase = advance_phase(phase, step);
        let s = sine_q16(phase);
        assert!((-65_536..=65_536).contains(&s));
    }
    // Advancing is exact modular addition.
    let expect = ((100u64 * step as u64) % 0x1_0000_0000) as u32;
    assert_eq!(phase, expect);
}

#[test]
fn high_frequency_phase_still_wraps() {
    // A frequency near the sample rate steps most of a cycle at a time;
    // the accumulator must keep wrapping, never stick or overflow.
    let step = phase_step(44_000_000, 44_100);
    let mut phase: u32 = 0x8000_0000;
    for _ in 0..1000 {
        phase = advance_phase(phase, step);
        let s = sine_q16(phase);
        assert!((-65_536..=65_536).contains(&s));
    }
}

#[test]
fn filter_impulse_is_bounded_and_decays() {
    // 1 kHz lowpass, Q = 0.707, at 44100 Hz: a unit impulse must give a
    // bounded response that has died down long before 1000 samples.
    let mut f = Biquad::new_lowpass(1_000_000, 46_341, 44_100);
    let mut early_peak: i64 = 0;
    let mut late_peak: i64 = 0;
    for n in 0..1000 {
        let x: i64 = if n == 0 { 65_536 } else { 0 };
        let y = f.process(x);
        assert!((-1_048_576..=1_048_576).contains(&y));
        if n < 100 && y.abs() > early_peak {
            early_peak = y.abs();
        }
        if n >= 900 && y.abs() > late_peak {
            late_peak = y.abs();
        }
    }
    assert!(early_peak > 0);
    assert!(late_peak < early_peak);
    // The tail is quiet: under 1% of full scale.
    assert!(late_peak < 655);
}

#[test]
fn filter_degenerate_parameters_stay_bounded() {
    // Zero cutoff and zero Q are clamped internally; processing loud
    // input must still give bounded output.
    let mut f = Biquad::new_lowpass(0, 0, 44_100);
    for n in 0..500 {
        let x: i64 = if n % 2 == 0 { 65_536 } else { -65_536 };
        let y = f.process(x);
        assert!((-1_048_576..=1_048_576).contains(&y));
    }
}

#[test]
fn compressor_passes_quiet_signals_unchanged() {
    let mut c = Compressor::new();
    // 100/65536 is far below the -50 dB threshold: unity gain, exactly.
    let y = c.process(100);
    assert_eq!(y, 100);
}

#[test]
fn compressor_attenuates_loud_signals() {
    let mut c = Compressor::new();
    let mut last: i64 = 0;
    for _ in 0..50 {
        last = c.process(65_536);
    }
    // A full-scale input is pulled well down by the 5:1 ratio.
    assert!(last > 0);
    assert!(last < 20_000);
}
