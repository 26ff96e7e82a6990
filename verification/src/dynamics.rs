//! The amplitude stages of the voice: the hard-clip waveshaper, the
//! clamped gain stage and the dynamics compressor, all in Q16.16.

use vstd::prelude::*;
use vstd::arithmetic::div_mod::{
    lemma_div_is_ordered, lemma_div_multiples_vanish, lemma_div_nonincreasing,
    lemma_div_pos_is_pos,
};
use vstd::arithmetic::mul::lemma_mul_inequality;
use crate::fixed::{
    clamp_i64, clamp_spec, div_q16, div_q16_spec, lemma_scale_q16_bounded, mul_q16, mul_q16_spec,
};

verus! {

/// Compression threshold: about -50 dB of full scale (Q16.16).
pub const COMP_THRESHOLD: i64 = 207;

/// Envelope smoothing factors (Q16.16 fractions of the remaining
/// distance absorbed per sample): a fast attack and a slow release.
pub const COMP_ATTACK: i64 = 13107;

pub const COMP_RELEASE: i64 = 328;

/// The waveshaper's transfer curve: the identity inside full scale,
/// hard-clipped to [-1.0, +1.0] outside it.
pub open spec fn soft_clip_spec(x: int) -> int {
    clamp_spec(x, -65536, 65536)
}

/// Applies the waveshaper curve to one sample.
pub fn soft_clip(x: i64) -> (r: i64)
    ensures
        r == soft_clip_spec(x as int),
        -65536 <= r <= 65536,
{
    clamp_i64(x, -65536, 65536)
}

/// Scales a sample by a gain in [0, 1] (Q16.16); the result never grows
/// in magnitude.
pub fn apply_gain(x: i64, gain: i64) -> (r: i64)
    requires
        -65536 <= x <= 65536,
        0 <= gain <= 65536,
    ensures
        r == mul_q16_spec(x as int, gain as int),
        -65536 <= r <= 65536,
{
    proof {
        lemma_scale_q16_bounded(x as int, gain as int);
        assert(-0x4000_0000_0000_0000 <= x * gain <= 0x4000_0000_0000_0000)
            by (nonlinear_arith)
            requires -65536 <= x <= 65536, 0 <= gain <= 65536;
    }
    mul_q16(x, gain)
}

/// The envelope after absorbing one sample: it moves toward the
/// sample's magnitude by the attack fraction when rising and by the
/// release fraction when falling.
pub open spec fn env_next_spec(env: int, x: int) -> int {
    let level = if x >= 0 {
        x
    } else {
        -x
    };
    let coef = if level > env {
        13107
    } else {
        328
    };
    env + mul_q16_spec(level - env, coef)
}

/// The gain the compressor applies at an envelope: unity below the
/// threshold; above it, the level in excess of the threshold is reduced
/// to a fifth (a 5:1 ratio), never amplifying.
pub open spec fn comp_gain_spec(env: int) -> int {
    if env > 207 {
        div_q16_spec(207 + (env - 207) / 5, env)
    } else {
        65536
    }
}

/// Envelope follower driving 5:1 gain reduction above the threshold.
/// The compressor is always in the signal path; there is no bypass.
pub struct Compressor {
    pub env: i64,
}

impl Compressor {
    /// The envelope is a smoothed magnitude, so it stays within full
    /// scale.
    pub open spec fn wf(&self) -> bool {
        0 <= self.env <= 65536
    }

    /// A compressor at rest.
    pub fn new() -> (c: Compressor)
        ensures
            c.wf(),
            c.env == 0,
    {
        Compressor { env: 0 }
    }

    /// Feeds one sample through the compressor: the envelope absorbs
    /// the sample's magnitude, then the sample is scaled by the gain
    /// that envelope calls for. Compression only ever attenuates.
    pub fn process(&mut self, x: i64) -> (r: i64)
        requires
            old(self).wf(),
            -65536 <= x <= 65536,
        ensures
            final(self).wf(),
            final(self).env == env_next_spec(old(self).env as int, x as int),
            r == mul_q16_spec(x as int, comp_gain_spec(final(self).env as int)),
            -65536 <= r <= 65536,
            x >= 0 ==> 0 <= r <= x,
            x < 0 ==> x <= r <= 0,
    {
        let level: i64 = if x >= 0 {
            x
        } else {
            -x
        };
        let delta: i64 = level - self.env;
        let coef: i64 = if level > self.env {
            COMP_ATTACK
        } else {
            COMP_RELEASE
        };
        proof {
            lemma_scale_q16_bounded(delta as int, coef as int);
            assert(-0x4000_0000_0000_0000 <= delta * coef <= 0x4000_0000_0000_0000)
                by (nonlinear_arith)
                requires -131072 <= delta <= 131072, 0 <= coef <= 65536;
        }
        self.env = self.env + mul_q16(delta, coef);
        let factor: i64 = if self.env > COMP_THRESHOLD {
            let excess: i64 = self.env - COMP_THRESHOLD;
            let reduced: i64 = COMP_THRESHOLD + ((excess as u64) / 5) as i64;
            proof {
                lemma_div_nonincreasing(excess as int, 5);
                lemma_div_pos_is_pos(excess as int, 5);
                lemma_mul_inequality(reduced as int, self.env as int, 65536);
                lemma_div_is_ordered(reduced * 65536, self.env * 65536, self.env as int);
                lemma_div_multiples_vanish(65536, self.env as int);
                assert(self.env * 65536 == self.env * 65536);
                lemma_div_pos_is_pos(reduced * 65536, self.env as int);
            }
            div_q16(reduced, self.env)
        } else {
            65536
        };
        proof {
            lemma_scale_q16_bounded(x as int, factor as int);
            assert(-0x4000_0000_0000_0000 <= x * factor <= 0x4000_0000_0000_0000)
                by (nonlinear_arith)
                requires -65536 <= x <= 65536, 0 <= factor <= 65536;
        }
        mul_q16(x, factor)
    }
}

} // verus!
