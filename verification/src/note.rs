//! MIDI note numbers and their frequencies.
//!
//! Frequencies throughout the crate are integers in millihertz, so the
//! equal-tempered scale can be stated and computed exactly: one reference
//! octave is tabulated (A at MIDI note 9 is 13750 millihertz, notes 0 to
//! 11 rounded to the nearest millihertz), and every higher octave doubles
//! it, which integer arithmetic performs without error.

use vstd::prelude::*;
use vstd::arithmetic::power2::{lemma2_to64, lemma_pow2_adds, lemma_pow2_pos, pow2};
use vstd::arithmetic::mul::lemma_mul_strict_inequality;

verus! {

/// Millihertz of the twelve notes of the lowest MIDI octave (notes 0 to
/// 11, from C at 8.176 Hz up to B at 15.434 Hz).
pub open spec fn base_note_milli(s: int) -> int {
    if s == 0 {
        8176
    } else if s == 1 {
        8662
    } else if s == 2 {
        9177
    } else if s == 3 {
        9723
    } else if s == 4 {
        10301
    } else if s == 5 {
        10913
    } else if s == 6 {
        11562
    } else if s == 7 {
        12250
    } else if s == 8 {
        12978
    } else if s == 9 {
        13750
    } else if s == 10 {
        14568
    } else {
        15434
    }
}

/// The frequency of a MIDI note in millihertz: the tabulated note of its
/// octave, doubled once per octave above the lowest.
pub open spec fn midi_freq_milli(n: int) -> int {
    base_note_milli(n % 12) * pow2((n / 12) as nat)
}

/// Converts a MIDI note to its frequency in millihertz.
///
/// A MIDI note is an integer in 0..=127, generally in the range of 21
/// (A0, 27.5 Hz) to 108 (C8); note 69 (A4) maps to exactly 440 Hz.
pub fn midi_to_freq(note: u8) -> (freq: u32)
    requires
        note < 128,
    ensures
        freq == midi_freq_milli(note as int),
        freq >= 8176,
{
    let s: u8 = note % 12;
    let oct: u8 = note / 12;
    let base: u32 = if s == 0 {
        8176
    } else if s == 1 {
        8662
    } else if s == 2 {
        9177
    } else if s == 3 {
        9723
    } else if s == 4 {
        10301
    } else if s == 5 {
        10913
    } else if s == 6 {
        11562
    } else if s == 7 {
        12250
    } else if s == 8 {
        12978
    } else if s == 9 {
        13750
    } else if s == 10 {
        14568
    } else {
        15434
    };
    proof {
        lemma2_to64();
    }
    let mut freq: u32 = base;
    let mut i: u8 = 0;
    while i < oct
        invariant
            i <= oct,
            oct <= 10,
            8176 <= base <= 15434,
            base == base_note_milli(note as int % 12),
            freq == base * pow2(i as nat),
            freq <= base * pow2(oct as nat),
        decreases oct - i,
    {
        proof {
            lemma_pow2_adds(i as nat, 1);
            lemma2_to64();
            lemma_pow2_pos((oct - i - 1) as nat);
            lemma_pow2_adds((i + 1) as nat, (oct - i - 1) as nat);
            assert(base * pow2((i + 1) as nat) <= base * pow2(oct as nat)) by (nonlinear_arith)
                requires
                    base >= 0,
                    pow2((i + 1) as nat) <= pow2(oct as nat);
            assert(pow2((i + 1) as nat) <= pow2((i + 1) as nat) * pow2((oct - i - 1) as nat))
                by (nonlinear_arith)
                requires pow2((oct - i - 1) as nat) >= 1, pow2((i + 1) as nat) >= 0;
            assert(base * pow2(oct as nat) <= 15434 * pow2(10)) by (nonlinear_arith)
                requires
                    0 <= base <= 15434,
                    1 <= pow2(oct as nat) <= pow2(10),
                    pow2(10) == 1024;
        }
        freq = freq * 2;
        i = i + 1;
    }
    proof {
        lemma_pow2_pos(oct as nat);
        assert(base * pow2(oct as nat) <= 15434 * pow2(10)) by (nonlinear_arith)
            requires
                0 <= base <= 15434,
                1 <= pow2(oct as nat) <= pow2(10),
                pow2(10) == 1024;
        assert(base * pow2(oct as nat) >= base * 1) by (nonlinear_arith)
            requires
                base >= 0,
                pow2(oct as nat) >= 1;
    }
    freq
}

/// The equal-tempered scale is strictly increasing: each MIDI note is
/// strictly higher in frequency than the one below it, over the whole
/// 0..=127 range (and so in particular over the usual 21..=108 span).
pub proof fn lemma_midi_freq_strictly_increasing(n: int)
    requires
        0 <= n < 127,
    ensures
        midi_freq_milli(n) < midi_freq_milli(n + 1),
{
    let s = n % 12;
    let o = n / 12;
    lemma_pow2_pos(o as nat);
    if s < 11 {
        assert((n + 1) % 12 == s + 1 && (n + 1) / 12 == o);
        lemma_mul_strict_inequality(
            base_note_milli(s),
            base_note_milli(s + 1),
            pow2(o as nat) as int,
        );
        assert(base_note_milli(s) * pow2(o as nat)
            < base_note_milli(s + 1) * pow2(o as nat)) by (nonlinear_arith)
            requires
                pow2(o as nat) >= 1,
                base_note_milli(s) < base_note_milli(s + 1);
    } else {
        assert((n + 1) % 12 == 0 && (n + 1) / 12 == o + 1);
        lemma_pow2_adds(o as nat, 1);
        lemma2_to64();
        assert(15434 * pow2(o as nat) < 8176 * (pow2(o as nat) * 2)) by (nonlinear_arith)
            requires pow2(o as nat) >= 1;
    }
}

/// Concert pitch is exact: MIDI note 69 (A4) is 440 Hz to the
/// millihertz, with no rounding at all.
pub proof fn lemma_midi_a4_exact()
    ensures
        midi_freq_milli(69) == 440_000,
{
    lemma2_to64();
}

} // verus!
