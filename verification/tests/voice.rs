//! Tests of the assembled FM voice: lifecycle, setters and rendering.

use fm_voice::{FmOsc, VoiceError};

#[test]
fn gain_clamps_and_is_idempotent() {
    let mut v = FmOsc::new(44_100);
    v.set_gain(19_661); // 0.3
    assert_eq!(v.gain_q16(), 19_661);
    v.set_gain(98_304); // 1.5: clamped to 1.0
    assert_eq!(v.gain_q16(), 65_536);
    v.set_gain(65_536); // re-setting the clamped value changes nothing
    assert_eq!(v.gain_q16(), 65_536);
    v.set_gain(0);
    assert_eq!(v.gain_q16(), 0);
}

#[test]
fn fm_depth_follows_carrier_frequency() {
    let mut v = FmOsc::new(44_100);
    v.set_primary_frequency(440_000);
    v.set_fm_amount(32_768); // ratio 0.5
    assert_eq!(v.fm_depth_milli(), 220_000);
    // A later frequency change re-derives the depth without a new
    // set_fm_amount call.
    v.set_primary_frequency(880_000);
    assert_eq!(v.fm_depth_milli(), 440_000);
}

#[test]
fn fm_frequency_follows_carrier_frequency() {
    let mut v = FmOsc::new(44_100);
    v.set_primary_frequency(440_000);
    v.set_fm_frequency(16_384); // ratio 0.25
    assert_eq!(v.fm_frequency_milli(), 110_000);
    v.set_note(81); // A5, 880 Hz
    assert_eq!(v.fm_frequency_milli(), 220_000);
}

#[test]
fn double_start_reports_invalid_transition() {
    let mut v = FmOsc::new(44_100);
    // A fresh voice is already running, so both start calls must report
    // an error rather than silently succeed.
    let first = v.set_primary(true);
    let second = v.set_primary(true);
    assert!(matches!(first, Err(VoiceError::InvalidStateTransition)));
    assert!(matches!(second, Err(VoiceError::InvalidStateTransition)));
    assert!(v.is_running());
    // Stopping once works; stopping again is the symmetric error.
    assert!(v.set_primary(false).is_ok());
    assert!(!v.is_running());
    assert!(matches!(
        v.set_primary(false),
        Err(VoiceError::InvalidStateTransition)
    ));
    // And it can be started again.
    assert!(v.set_primary(true).is_ok());
    assert!(v.is_running());
}

#[test]
fn end_to_end_render_is_audible_and_bounded() {
    let mut v = FmOsc::new(44_100);
    v.set_note(69);
    v.set_gain(65_536);
    let out = v.render(512);
    assert_eq!(out.len(), 512);
    let mut peak: i64 = 0;
    for &s in &out {
        assert!((-65_536..=65_536).contains(&s));
        if s.abs() > peak {
            peak = s.abs();
        }
    }
    assert!(peak > 0);
}

#[test]
fn stopped_voice_renders_silence_and_holds_phase() {
    let mut v = FmOsc::new(44_100);
    v.set_note(69);
    v.set_gain(65_536);
    let _ = v.render(32);
    assert!(v.set_primary(false).is_ok());
    let phase_before = v.carrier_phase_units();
    let out = v.render(64);
    assert_eq!(out.len(), 64);
    assert!(out.iter().all(|&s| s == 0));
    assert_eq!(v.carrier_phase_units(), phase_before);
}

#[test]
fn modulated_render_stays_in_range() {
    let mut v = FmOsc::new(44_100);
    v.set_note(57); // A3
    v.set_gain(65_536);
    v.set_fm_amount(65_536); // depth ratio 1.0
    v.set_fm_frequency(32_768); // modulator at half the carrier
    v.set_filter(2_000_000); // 2 kHz cutoff
    v.set_filter_q(131_072); // Q = 2
    let out = v.render(2_048);
    let mut peak: i64 = 0;
    for &s in &out {
        assert!((-65_536..=65_536).contains(&s));
        if s.abs() > peak {
            peak = s.abs();
        }
    }
    assert!(peak > 0);
}
