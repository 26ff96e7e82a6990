//! Tests of the MIDI-note-to-frequency conversion.

use fm_voice::midi_to_freq;

#[test]
fn midi_a4_is_440hz() {
    assert_eq!(midi_to_freq(69), 440_000);
}

#[test]
fn midi_reference_points() {
    // A0, the bottom of the usual keyboard: 27.5 Hz exactly.
    assert_eq!(midi_to_freq(21), 27_500);
    // The lowest MIDI note, C at about 8.176 Hz.
    assert_eq!(midi_to_freq(0), 8_176);
    // A5: one octave above A4, doubled exactly.
    assert_eq!(midi_to_freq(81), 880_000);
    // C8, the top of the usual keyboard.
    assert_eq!(midi_to_freq(108), 4_186_112);
}

#[test]
fn midi_monotone_over_keyboard() {
    let mut n: u8 = 21;
    while n < 108 {
        assert!(midi_to_freq(n) < midi_to_freq(n + 1));
        n += 1;
    }
}

#[test]
fn midi_close_to_equal_temperament() {
    for n in 0u8..128 {
        let got = midi_to_freq(n) as f64;
        let want = 27_500.0 * 2f64.powf((n as f64 - 21.0) / 12.0);
        let rel = (got - want).abs() / want;
        assert!(rel < 1e-4, "note {}: got {} want {}", n, got, want);
    }
}
