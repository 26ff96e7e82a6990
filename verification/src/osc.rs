//! Phase-accumulator sine oscillator.
//!
//! Phase lives in a `u32`: the unit circle is divided into 2^32 equal
//! steps, so a phase is always a fraction of one cycle in [0, 1) and
//! advancing wraps modulo 2^32 with no extra work. The waveform is the
//! classic parabolic sine approximation, computed exactly in integers:
//! on each half cycle the output is a parabola through the half cycle's
//! endpoints, peaking at +-1.0 (Q16.16) at the quarter points.

use vstd::prelude::*;

verus! {

/// 2^32: one full cycle of oscillator phase.
pub const PHASE_MODULUS: u64 = 0x1_0000_0000;

/// How far one sample advances the phase of an oscillator running at
/// `freq_milli_hz` with `sample_rate` samples per second: the fraction
/// freq/rate of a full cycle, in 2^-32 cycle units, floored and wrapped.
pub open spec fn phase_step_spec(freq_milli_hz: int, sample_rate: int) -> int {
    ((freq_milli_hz * 0x1_0000_0000) / (sample_rate * 1000)) % 0x1_0000_0000
}

/// The parabolic sine of a phase, in Q16.16: zero at phase 0 and 1/2,
/// +1.0 at phase 1/4, -1.0 at phase 3/4, a parabola in between.
pub open spec fn sine_q16_spec(phase: int) -> int {
    let h = phase % 0x8000_0000;
    let mag = (h * (0x8000_0000 - h)) / 0x1000_0000_0000;
    if phase % 0x1_0000_0000 < 0x8000_0000 {
        mag
    } else {
        -mag
    }
}

/// Computes the per-sample phase increment for a frequency.
pub fn phase_step(freq_milli_hz: u32, sample_rate: u32) -> (step: u32)
    requires
        1 <= sample_rate <= 1_000_000,
    ensures
        step == phase_step_spec(freq_milli_hz as int, sample_rate as int),
{
    let num: u64 = (freq_milli_hz as u64) * 0x1_0000_0000;
    let den: u64 = (sample_rate as u64) * 1000;
    ((num / den) % 0x1_0000_0000) as u32
}

/// Advances a phase by one step, wrapping around the cycle.
pub fn advance_phase(phase: u32, step: u32) -> (next: u32)
    ensures
        next == (phase + step) % 0x1_0000_0000,
{
    (((phase as u64) + (step as u64)) % 0x1_0000_0000) as u32
}

/// Samples the parabolic sine wave at a phase. The result is always in
/// [-1.0, +1.0] (Q16.16): integer samples can never leave that range,
/// let alone become NaN or infinite.
pub fn sine_q16(phase: u32) -> (s: i64)
    ensures
        s == sine_q16_spec(phase as int),
        -65536 <= s <= 65536,
        phase < 0x8000_0000 ==> s >= 0,
{
    let h: u64 = (phase as u64) % 0x8000_0000;
    proof {
        assert(h * (0x8000_0000 - h) <= 0x1000_0000_0000_0000) by (nonlinear_arith)
            requires 0 <= h < 0x8000_0000;
    }
    let prod: u64 = h * (0x8000_0000 - h);
    let mag: u64 = prod / 0x1000_0000_0000;
    if phase < 0x8000_0000 {
        mag as i64
    } else {
        -(mag as i64)
    }
}

/// The waveform is a true oscillation about zero: the second half of
/// every cycle mirrors the first, so advancing any phase by half a
/// cycle negates the sample.
pub proof fn lemma_sine_half_cycle_mirrors(p: int)
    requires
        0 <= p < 0x1_0000_0000,
    ensures
        sine_q16_spec((p + 0x8000_0000) % 0x1_0000_0000) == -sine_q16_spec(p),
{
    let q = (p + 0x8000_0000) % 0x1_0000_0000;
    if p < 0x8000_0000 {
        assert(q == p + 0x8000_0000);
        assert(q % 0x8000_0000 == p % 0x8000_0000);
    } else {
        assert(q == p - 0x8000_0000);
        assert(q % 0x8000_0000 == p % 0x8000_0000);
    }
}

} // verus!
