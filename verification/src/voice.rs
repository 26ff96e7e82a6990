//! The FM voice: a carrier oscillator frequency-modulated by a second
//! oscillator, run through lowpass filter, waveshaper, gain stage and
//! compressor, with setters for note, gain, modulation and filter
//! parameters.
//!
//! The modulator's frequency and depth are expressed as ratios of the
//! carrier frequency and are re-derived eagerly by every setter that
//! touches the carrier frequency or a ratio; `wf` states that the
//! derived values always agree with the stored ratios, so the depth can
//! never go stale between setter calls.

use vstd::prelude::*;
use crate::dynamics::{
    apply_gain, comp_gain_spec, env_next_spec, soft_clip, soft_clip_spec, Compressor,
};
use crate::filter::{
    coefs_match, filter_out_spec, filter_state_spec, lp_a1_spec, lp_a2_spec, lp_b0_spec,
    lp_b1_spec, Biquad,
};
use crate::fixed::{clamp_i64, clamp_spec, mul_q16, mul_q16_spec};
use crate::note::{midi_freq_milli, midi_to_freq};
use crate::osc::{advance_phase, phase_step, phase_step_spec, sine_q16, sine_q16_spec};

verus! {

/// What a lifecycle call can report: starting an already running voice,
/// or stopping an already stopped one.
#[derive(Clone, Copy, Debug, PartialEq, Eq, Structural)]
pub enum VoiceError {
    InvalidStateTransition,
}

/// A derived modulator quantity in millihertz: the carrier frequency
/// scaled by a Q16.16 ratio, capped so it stays a frequency the phase
/// accumulator can take.
pub open spec fn derived_milli_spec(freq: int, ratio: int) -> int {
    let v = (freq * ratio) / 65536;
    if v > 0xFFFF_FFFF {
        0xFFFF_FFFF
    } else {
        v
    }
}

/// Computes a derived modulator quantity.
fn derive_milli(freq: u32, ratio: u32) -> (d: u32)
    ensures
        d == derived_milli_spec(freq as int, ratio as int),
{
    proof {
        assert(freq * ratio <= 0xFFFF_FFFF_0000_0000) by (nonlinear_arith)
            requires freq <= 0xFFFF_FFFF, ratio <= 0xFFFF_FFFF;
    }
    let p: u64 = (freq as u64) * (ratio as u64);
    let v: u64 = p / 65536;
    if v > 0xFFFF_FFFF {
        0xFFFF_FFFF
    } else {
        v as u32
    }
}

/// One FM synthesis voice.
pub struct FmOsc {
    /// Samples per second the voice renders at.
    pub sample_rate: u32,
    /// Whether the carrier is generating samples.
    pub running: bool,
    /// Carrier frequency, millihertz.
    pub freq: u32,
    /// Master gain, Q16.16 in [0, 1].
    pub gain: i64,
    /// Modulation depth as a ratio of the carrier frequency, Q16.16.
    pub fm_gain_ratio: u32,
    /// Modulator frequency as a ratio of the carrier frequency, Q16.16.
    pub fm_freq_ratio: u32,
    /// Derived modulator frequency, millihertz.
    pub fm_freq: u32,
    /// Derived peak frequency deviation, millihertz.
    pub fm_depth: u32,
    /// Filter cutoff as last set, millihertz.
    pub cutoff: u32,
    /// Filter resonance as last set, Q16.16.
    pub q: u32,
    /// Carrier oscillator phase, in 2^-32 cycles.
    pub carrier_phase: u32,
    /// Modulator oscillator phase, in 2^-32 cycles.
    pub mod_phase: u32,
    /// The lowpass section the carrier runs through.
    pub filter: Biquad,
    /// The always-connected output compressor.
    pub comp: Compressor,
}

impl FmOsc {
    /// The voice's invariant: the gain is clamped, the derived
    /// modulator frequency and depth agree with the stored ratios and
    /// carrier frequency, the filter's coefficients agree with the
    /// stored cutoff and resonance, and the filter and compressor
    /// histories are in range.
    pub open spec fn wf(&self) -> bool {
        &&& 1000 <= self.sample_rate <= 1_000_000
        &&& 0 <= self.gain <= 65536
        &&& self.fm_freq == derived_milli_spec(self.freq as int, self.fm_freq_ratio as int)
        &&& self.fm_depth == derived_milli_spec(self.freq as int, self.fm_gain_ratio as int)
        &&& coefs_match(
            self.filter,
            self.cutoff as int,
            self.q as int,
            self.sample_rate as int,
        )
        &&& self.filter.wf()
        &&& self.comp.wf()
    }

    /// A freshly constructed voice: carrier at 440 Hz (A4), muted, no
    /// modulation, filter at its default cutoff and resonance, both
    /// oscillators started and at phase zero.
    pub fn new(sample_rate: u32) -> (v: FmOsc)
        requires
            1000 <= sample_rate <= 1_000_000,
        ensures
            v.wf(),
            v.sample_rate == sample_rate,
            v.running == true,
            v.freq == 440_000,
            v.gain == 0,
            v.fm_gain_ratio == 0 && v.fm_freq_ratio == 0,
            v.fm_freq == 0 && v.fm_depth == 0,
            v.cutoff == 350_000 && v.q == 65536,
            v.carrier_phase == 0 && v.mod_phase == 0,
            v.filter.x1 == 0 && v.filter.x2 == 0 && v.filter.y1 == 0 && v.filter.y2 == 0,
            v.comp.env == 0,
    {
        FmOsc {
            sample_rate,
            running: true,
            freq: 440_000,
            gain: 0,
            fm_gain_ratio: 0,
            fm_freq_ratio: 0,
            fm_freq: 0,
            fm_depth: 0,
            cutoff: 350_000,
            q: 65536,
            carrier_phase: 0,
            mod_phase: 0,
            filter: Biquad::new_lowpass(350_000, 65536, sample_rate),
            comp: Compressor::new(),
        }
    }

    /// Starts (`true`) or stops (`false`) the carrier. Starting a
    /// running voice or stopping a stopped one is an invalid state
    /// transition: it is reported, never silently ignored, and leaves
    /// the voice untouched.
    pub fn set_primary(&mut self, state: bool) -> (r: Result<(), VoiceError>)
        requires
            old(self).wf(),
        ensures
            final(self).wf(),
            state == old(self).running ==> r == Err::<(), VoiceError>(
                VoiceError::InvalidStateTransition,
            ) && *final(self) == *old(self),
            state != old(self).running ==> r == Ok::<(), VoiceError>(()) && *final(self)
                == (FmOsc { running: state, ..*old(self) }),
    {
        if state == self.running {
            Err(VoiceError::InvalidStateTransition)
        } else {
            self.running = state;
            Ok(())
        }
    }

    /// Sets the master gain, clamping into [0, 1] (Q16.16): any input
    /// however large leaves a stored gain in range, and re-clamping a
    /// clamped value changes nothing.
    pub fn set_gain(&mut self, gain: u32)
        requires
            old(self).wf(),
        ensures
            final(self).wf(),
            *final(self) == (FmOsc {
                gain: clamp_spec(gain as int, 0, 65536) as i64,
                ..*old(self)
            }),
            0 <= final(self).gain <= 65536,
    {
        let g: i64 = if gain > 65536 {
            65536
        } else {
            gain as i64
        };
        self.gain = g;
    }

    /// Sets the carrier frequency (millihertz). The modulator's
    /// frequency and depth are ratios of the carrier frequency, so both
    /// are re-derived here as well.
    pub fn set_primary_frequency(&mut self, freq: u32)
        requires
            old(self).wf(),
        ensures
            final(self).wf(),
            *final(self) == (FmOsc {
                freq: freq,
                fm_freq: derived_milli_spec(freq as int, old(self).fm_freq_ratio as int) as u32,
                fm_depth: derived_milli_spec(freq as int, old(self).fm_gain_ratio as int) as u32,
                ..*old(self)
            }),
    {
        self.freq = freq;
        self.fm_freq = derive_milli(freq, self.fm_freq_ratio);
        self.fm_depth = derive_milli(freq, self.fm_gain_ratio);
    }

    /// Sets the carrier frequency from a MIDI note.
    pub fn set_note(&mut self, note: u8)
        requires
            old(self).wf(),
            note < 128,
        ensures
            final(self).wf(),
            *final(self) == (FmOsc {
                freq: midi_freq_milli(note as int) as u32,
                fm_freq: derived_milli_spec(
                    midi_freq_milli(note as int),
                    old(self).fm_freq_ratio as int,
                ) as u32,
                fm_depth: derived_milli_spec(
                    midi_freq_milli(note as int),
                    old(self).fm_gain_ratio as int,
                ) as u32,
                ..*old(self)
            }),
    {
        let freq: u32 = midi_to_freq(note);
        self.set_primary_frequency(freq);
    }

    /// Sets the modulation depth as a ratio of the carrier frequency
    /// (Q16.16; usually in [0, 1], larger values are accepted) and
    /// re-derives the depth from the current carrier frequency.
    pub fn set_fm_amount(&mut self, amt: u32)
        requires
            old(self).wf(),
        ensures
            final(self).wf(),
            *final(self) == (FmOsc {
                fm_gain_ratio: amt,
                fm_depth: derived_milli_spec(old(self).freq as int, amt as int) as u32,
                ..*old(self)
            }),
    {
        self.fm_gain_ratio = amt;
        self.fm_depth = derive_milli(self.freq, amt);
    }

    /// Sets the modulator frequency as a ratio of the carrier frequency
    /// (Q16.16; usually in [0, 1], larger values are accepted) and
    /// re-derives it from the current carrier frequency.
    pub fn set_fm_frequency(&mut self, amt: u32)
        requires
            old(self).wf(),
        ensures
            final(self).wf(),
            *final(self) == (FmOsc {
                fm_freq_ratio: amt,
                fm_freq: derived_milli_spec(old(self).freq as int, amt as int) as u32,
                ..*old(self)
            }),
    {
        self.fm_freq_ratio = amt;
        self.fm_freq = derive_milli(self.freq, amt);
    }

    /// Sets the filter cutoff (millihertz) and recomputes the filter's
    /// coefficients immediately; its sample history is kept.
    pub fn set_filter(&mut self, cutoff: u32)
        requires
            old(self).wf(),
        ensures
            final(self).wf(),
            *final(self) == (FmOsc {
                cutoff: cutoff,
                filter: (Biquad {
                    b0: lp_b0_spec(
                        cutoff as int,
                        old(self).q as int,
                        old(self).sample_rate as int,
                    ) as i64,
                    b1: lp_b1_spec(
                        cutoff as int,
                        old(self).q as int,
                        old(self).sample_rate as int,
                    ) as i64,
                    b2: lp_b0_spec(
                        cutoff as int,
                        old(self).q as int,
                        old(self).sample_rate as int,
                    ) as i64,
                    a1: lp_a1_spec(
                        cutoff as int,
                        old(self).q as int,
                        old(self).sample_rate as int,
                    ) as i64,
                    a2: lp_a2_spec(
                        cutoff as int,
                        old(self).q as int,
                        old(self).sample_rate as int,
                    ) as i64,
                    ..old(self).filter
                }),
                ..*old(self)
            }),
    {
        self.cutoff = cutoff;
        let q: u32 = self.q;
        let rate: u32 = self.sample_rate;
        self.filter.configure(cutoff, q, rate);
    }

    /// Sets the filter resonance (Q16.16) and recomputes the filter's
    /// coefficients immediately; its sample history is kept.
    pub fn set_filter_q(&mut self, q: u32)
        requires
            old(self).wf(),
        ensures
            final(self).wf(),
            *final(self) == (FmOsc {
                q: q,
                filter: (Biquad {
                    b0: lp_b0_spec(
                        old(self).cutoff as int,
                        q as int,
                        old(self).sample_rate as int,
                    ) as i64,
                    b1: lp_b1_spec(
                        old(self).cutoff as int,
                        q as int,
                        old(self).sample_rate as int,
                    ) as i64,
                    b2: lp_b0_spec(
                        old(self).cutoff as int,
                        q as int,
                        old(self).sample_rate as int,
                    ) as i64,
                    a1: lp_a1_spec(
                        old(self).cutoff as int,
                        q as int,
                        old(self).sample_rate as int,
                    ) as i64,
                    a2: lp_a2_spec(
                        old(self).cutoff as int,
                        q as int,
                        old(self).sample_rate as int,
                    ) as i64,
                    ..old(self).filter
                }),
                ..*old(self)
            }),
    {
        self.q = q;
        let cutoff: u32 = self.cutoff;
        let rate: u32 = self.sample_rate;
        self.filter.configure(cutoff, q, rate);
    }
}

/// One sample of the voice: the next state and the emitted sample. A
/// stopped voice emits silence and does not advance. A running one
/// advances the modulator, bends the carrier frequency by the
/// modulator's output scaled by the depth, advances the carrier, and
/// sends the carrier's sample through filter, waveshaper, gain and
/// compressor.
pub open spec fn step_spec(v: FmOsc) -> (FmOsc, i64) {
    if !v.running {
        (v, 0)
    } else {
        let mod_out = sine_q16_spec(v.mod_phase as int);
        let mod_next = ((v.mod_phase as int + phase_step_spec(
            v.fm_freq as int,
            v.sample_rate as int,
        )) % 0x1_0000_0000) as u32;
        let inst = clamp_spec(
            v.freq as int + mul_q16_spec(mod_out, v.fm_depth as int),
            0,
            0xFFFF_FFFF,
        ) as u32;
        let car_out = sine_q16_spec(v.carrier_phase as int) as i64;
        let car_next = ((v.carrier_phase as int + phase_step_spec(
            inst as int,
            v.sample_rate as int,
        )) % 0x1_0000_0000) as u32;
        let shaped = soft_clip_spec(filter_out_spec(v.filter, car_out));
        let amped = mul_q16_spec(shaped, v.gain as int);
        let env_next = env_next_spec(v.comp.env as int, amped);
        let out = mul_q16_spec(amped, comp_gain_spec(env_next));
        (
            FmOsc {
                mod_phase: mod_next,
                carrier_phase: car_next,
                filter: filter_state_spec(v.filter, car_out),
                comp: Compressor { env: env_next as i64 },
                ..v
            },
            out as i64,
        )
    }
}

/// The voice after rendering `k` samples.
pub open spec fn state_after_spec(v: FmOsc, k: nat) -> FmOsc
    decreases k,
{
    if k == 0 {
        v
    } else {
        step_spec(state_after_spec(v, (k - 1) as nat)).0
    }
}

/// The `k`-th sample a voice renders.
pub open spec fn sample_at_spec(v: FmOsc, k: nat) -> i64 {
    step_spec(state_after_spec(v, k)).1
}

impl FmOsc {
    /// Renders one sample and advances the voice's state.
    pub fn step_one(&mut self) -> (s: i64)
        requires
            old(self).wf(),
        ensures
            final(self).wf(),
            *final(self) == step_spec(*old(self)).0,
            s == step_spec(*old(self)).1,
            -65536 <= s <= 65536,
    {
        if !self.running {
            return 0;
        }
        let mod_out: i64 = sine_q16(self.mod_phase);
        let mod_step: u32 = phase_step(self.fm_freq, self.sample_rate);
        self.mod_phase = advance_phase(self.mod_phase, mod_step);
        let depth: i64 = self.fm_depth as i64;
        proof {
            assert(-0x4000_0000_0000_0000 <= mod_out * depth <= 0x4000_0000_0000_0000)
                by (nonlinear_arith)
                requires -65536 <= mod_out <= 65536, 0 <= depth <= 0xFFFF_FFFF;
        }
        let offset: i64 = mul_q16(mod_out, depth);
        let inst: u32 = clamp_i64((self.freq as i64) + offset, 0, 0xFFFF_FFFF) as u32;
        let car_out: i64 = sine_q16(self.carrier_phase);
        let car_step: u32 = phase_step(inst, self.sample_rate);
        self.carrier_phase = advance_phase(self.carrier_phase, car_step);
        let filtered: i64 = self.filter.process(car_out);
        let shaped: i64 = soft_clip(filtered);
        let amped: i64 = apply_gain(shaped, self.gain);
        self.comp.process(amped)
    }

    /// Renders a block of `count` samples, advancing the voice
    /// sample-accurately: the result is exactly the sequence that
    /// repeated single steps from the starting state produce, every
    /// sample within full scale. A stopped voice renders silence.
    pub fn render(&mut self, count: usize) -> (out: Vec<i64>)
        requires
            old(self).wf(),
        ensures
            final(self).wf(),
            *final(self) == state_after_spec(*old(self), count as nat),
            out@.len() == count,
            forall|i: int| 0 <= i < count ==> #[trigger] out@[i] == sample_at_spec(
                *old(self),
                i as nat,
            ),
            forall|i: int| 0 <= i < count ==> -65536 <= #[trigger] out@[i] <= 65536,
    {
        let mut out: Vec<i64> = Vec::new();
        let mut i: usize = 0;
        while i < count
            invariant
                old(self).wf(),
                self.wf(),
                i <= count,
                *self == state_after_spec(*old(self), i as nat),
                out@.len() == i as int,
                forall|j: int| 0 <= j < i ==> #[trigger] out@[j] == sample_at_spec(
                    *old(self),
                    j as nat,
                ),
                forall|j: int| 0 <= j < i ==> -65536 <= #[trigger] out@[j] <= 65536,
            decreases count - i,
        {
            let s: i64 = self.step_one();
            proof {
                assert(state_after_spec(*old(self), (i + 1) as nat) == step_spec(
                    state_after_spec(*old(self), i as nat),
                ).0);
            }
            out.push(s);
            i = i + 1;
        }
        out
    }

    /// The stored master gain (Q16.16).
    pub fn gain_q16(&self) -> (g: i64)
        ensures
            g == self.gain,
    {
        self.gain
    }

    /// The carrier frequency (millihertz).
    pub fn frequency_milli(&self) -> (f: u32)
        ensures
            f == self.freq,
    {
        self.freq
    }

    /// The derived modulator frequency (millihertz).
    pub fn fm_frequency_milli(&self) -> (f: u32)
        ensures
            f == self.fm_freq,
    {
        self.fm_freq
    }

    /// The derived peak frequency deviation (millihertz).
    pub fn fm_depth_milli(&self) -> (d: u32)
        ensures
            d == self.fm_depth,
    {
        self.fm_depth
    }

    /// Whether the carrier is currently generating samples.
    pub fn is_running(&self) -> (r: bool)
        ensures
            r == self.running,
    {
        self.running
    }

    /// The carrier oscillator's phase, in 2^-32 cycles: by construction
    /// always inside one cycle.
    pub fn carrier_phase_units(&self) -> (p: u32)
        ensures
            p == self.carrier_phase,
    {
        self.carrier_phase
    }
}

/// A stopped voice emits no more samples: however many steps it is
/// asked for, its state never moves and every rendered sample is zero.
pub proof fn lemma_stopped_voice_is_silent(v: FmOsc, k: nat)
    requires
        !v.running,
    ensures
        state_after_spec(v, k) == v,
        sample_at_spec(v, k) == 0,
    decreases k,
{
    if k > 0 {
        lemma_stopped_voice_is_silent(v, (k - 1) as nat);
    }
}

/// Rendering in blocks loses nothing: a block of `k1` samples followed
/// by a block of `k2` leaves the voice exactly where one block of
/// `k1 + k2` would, and the samples of the second block are exactly the
/// later samples of the long block. The host may therefore choose any
/// block cadence it likes.
pub proof fn lemma_render_blocks_compose(v: FmOsc, k1: nat, k2: nat)
    ensures
        state_after_spec(state_after_spec(v, k1), k2) == state_after_spec(v, k1 + k2),
        sample_at_spec(state_after_spec(v, k1), k2) == sample_at_spec(v, k1 + k2),
    decreases k2,
{
    if k2 > 0 {
        lemma_render_blocks_compose(v, k1, (k2 - 1) as nat);
    }
}

/// Whatever gain a caller asks for, the stored gain lands in [0, 1]
/// (Q16.16), and clamping is idempotent: re-setting an already clamped
/// gain stores it unchanged.
pub proof fn lemma_gain_clamp(g: int)
    ensures
        0 <= clamp_spec(g, 0, 65536) <= 65536,
        clamp_spec(clamp_spec(g, 0, 65536), 0, 65536) == clamp_spec(g, 0, 65536),
{
}

} // verus!
