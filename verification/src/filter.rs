//! Second-order IIR (biquad) lowpass filter in Q16.16 fixed point.
//!
//! Coefficients follow the standard bilinear-transform lowpass recipe
//! (with the crate's parabolic sine standing in for the trigonometric
//! terms): w = 2*pi*cutoff/rate, alpha = sin(w)/(2*Q), then the b and a
//! coefficients normalised by a0 = 1 + alpha. Degenerate parameters are
//! clamped to a safe range rather than rejected, and the output is
//! saturated, so processing is total: any parameters, however extreme,
//! give a bounded output.

use vstd::prelude::*;
use vstd::arithmetic::div_mod::{
    lemma_div_is_ordered, lemma_div_is_ordered_by_denominator, lemma_div_multiples_vanish_quotient,
    lemma_div_pos_is_pos,
};
use vstd::arithmetic::mul::lemma_mul_inequality;
use crate::fixed::{clamp_i64, clamp_spec, clamp_u32, div_q16, div_q16_spec, mul_q16, mul_q16_spec};
use crate::osc::{advance_phase, phase_step, phase_step_spec, sine_q16, sine_q16_spec};

verus! {

/// Largest magnitude a normalised coefficient is allowed: 4.0 in Q16.16.
pub const COEF_MAX: i64 = 262144;

/// Saturation bound of the filter output: 16.0 in Q16.16, leaving
/// resonant peaks room above full scale without threatening overflow.
pub const FILTER_MAX: i64 = 1048576;

/// Cutoff clamped into [1 Hz, 0.45 * rate]: strictly inside (0, Nyquist).
pub open spec fn cutoff_clamped_spec(cutoff: int, rate: int) -> int {
    clamp_spec(cutoff, 1000, rate * 450)
}

/// Resonance clamped into [0.01, 100] (Q16.16).
pub open spec fn q_clamped_spec(q: int) -> int {
    clamp_spec(q, 655, 6_553_600)
}

/// The cutoff as a phase: the fraction cutoff/rate of a full circle.
pub open spec fn cutoff_phase_spec(cutoff: int, rate: int) -> int {
    phase_step_spec(cutoff_clamped_spec(cutoff, rate), rate)
}

pub open spec fn lp_sin_spec(cutoff: int, rate: int) -> int {
    sine_q16_spec(cutoff_phase_spec(cutoff, rate))
}

pub open spec fn lp_cos_spec(cutoff: int, rate: int) -> int {
    sine_q16_spec((cutoff_phase_spec(cutoff, rate) + 0x4000_0000) % 0x1_0000_0000)
}

pub open spec fn lp_alpha_spec(cutoff: int, q: int, rate: int) -> int {
    div_q16_spec(lp_sin_spec(cutoff, rate), 2 * q_clamped_spec(q))
}

pub open spec fn lp_b0_spec(cutoff: int, q: int, rate: int) -> int {
    clamp_spec(
        div_q16_spec(
            (65536 - lp_cos_spec(cutoff, rate)) / 2,
            65536 + lp_alpha_spec(cutoff, q, rate),
        ),
        -262144,
        262144,
    )
}

pub open spec fn lp_b1_spec(cutoff: int, q: int, rate: int) -> int {
    clamp_spec(
        div_q16_spec(
            65536 - lp_cos_spec(cutoff, rate),
            65536 + lp_alpha_spec(cutoff, q, rate),
        ),
        -262144,
        262144,
    )
}

pub open spec fn lp_a1_spec(cutoff: int, q: int, rate: int) -> int {
    clamp_spec(
        div_q16_spec(
            -2 * lp_cos_spec(cutoff, rate),
            65536 + lp_alpha_spec(cutoff, q, rate),
        ),
        -262144,
        262144,
    )
}

pub open spec fn lp_a2_spec(cutoff: int, q: int, rate: int) -> int {
    clamp_spec(
        div_q16_spec(
            65536 - lp_alpha_spec(cutoff, q, rate),
            65536 + lp_alpha_spec(cutoff, q, rate),
        ),
        -262144,
        262144,
    )
}

/// One biquad section: normalised coefficients and the two most recent
/// inputs and outputs.
pub struct Biquad {
    pub b0: i64,
    pub b1: i64,
    pub b2: i64,
    pub a1: i64,
    pub a2: i64,
    pub x1: i64,
    pub x2: i64,
    pub y1: i64,
    pub y2: i64,
}

/// The coefficients are exactly the lowpass recipe's for these
/// parameters.
pub open spec fn coefs_match(f: Biquad, cutoff: int, q: int, rate: int) -> bool {
    &&& f.b0 == lp_b0_spec(cutoff, q, rate)
    &&& f.b1 == lp_b1_spec(cutoff, q, rate)
    &&& f.b2 == lp_b0_spec(cutoff, q, rate)
    &&& f.a1 == lp_a1_spec(cutoff, q, rate)
    &&& f.a2 == lp_a2_spec(cutoff, q, rate)
}

/// The next output sample: the direct-form difference equation,
/// saturated into [-FILTER_MAX, FILTER_MAX].
pub open spec fn filter_out_spec(f: Biquad, x: i64) -> int {
    clamp_spec(
        mul_q16_spec(f.b0 as int, x as int) + mul_q16_spec(f.b1 as int, f.x1 as int)
            + mul_q16_spec(f.b2 as int, f.x2 as int) - mul_q16_spec(f.a1 as int, f.y1 as int)
            - mul_q16_spec(f.a2 as int, f.y2 as int),
        -1048576,
        1048576,
    )
}

/// The filter after absorbing one input sample.
pub open spec fn filter_state_spec(f: Biquad, x: i64) -> Biquad {
    Biquad {
        x1: x,
        x2: f.x1,
        y1: filter_out_spec(f, x) as i64,
        y2: f.y1,
        ..f
    }
}

impl Biquad {
    /// Coefficients and history are small enough that every product in
    /// the difference equation stays far from overflow.
    pub open spec fn wf(&self) -> bool {
        &&& -262144 <= self.b0 <= 262144
        &&& -262144 <= self.b1 <= 262144
        &&& -262144 <= self.b2 <= 262144
        &&& -262144 <= self.a1 <= 262144
        &&& -262144 <= self.a2 <= 262144
        &&& -65536 <= self.x1 <= 65536
        &&& -65536 <= self.x2 <= 65536
        &&& -1048576 <= self.y1 <= 1048576
        &&& -1048576 <= self.y2 <= 1048576
    }

    /// A lowpass section with quiet history, configured for the given
    /// cutoff (millihertz) and resonance (Q16.16).
    pub fn new_lowpass(cutoff: u32, q: u32, rate: u32) -> (f: Biquad)
        requires
            1000 <= rate <= 1_000_000,
        ensures
            f.wf(),
            coefs_match(f, cutoff as int, q as int, rate as int),
            f.x1 == 0 && f.x2 == 0 && f.y1 == 0 && f.y2 == 0,
    {
        let mut f = Biquad {
            b0: 0,
            b1: 0,
            b2: 0,
            a1: 0,
            a2: 0,
            x1: 0,
            x2: 0,
            y1: 0,
            y2: 0,
        };
        f.configure(cutoff, q, rate);
        f
    }

    /// Recomputes the coefficients for a new cutoff (millihertz) and
    /// resonance (Q16.16), clamping degenerate values; the sample
    /// history is kept.
    pub fn configure(&mut self, cutoff: u32, q: u32, rate: u32)
        requires
            1000 <= rate <= 1_000_000,
            old(self).wf(),
        ensures
            final(self).wf(),
            coefs_match(*final(self), cutoff as int, q as int, rate as int),
            final(self).x1 == old(self).x1,
            final(self).x2 == old(self).x2,
            final(self).y1 == old(self).y1,
            final(self).y2 == old(self).y2,
    {
        let cl: u32 = clamp_u32(cutoff, 1000, rate * 450);
        let ql: u32 = clamp_u32(q, 655, 6_553_600);
        let w: u32 = phase_step(cl, rate);
        proof {
            lemma_mul_inequality(cl as int, rate * 450, 0x1_0000_0000);
            lemma_div_is_ordered(
                cl * 0x1_0000_0000,
                (rate * 450) * 0x1_0000_0000,
                rate * 1000,
            );
            assert(rate * (450 * 0x1_0000_0000) == (rate * 450) * 0x1_0000_0000)
                by (nonlinear_arith);
            lemma_div_multiples_vanish_quotient(rate as int, (450 * 0x1_0000_0000) as int, 1000);
            assert(450 * 0x1_0000_0000 / 1000 == 1932735283);
            lemma_div_pos_is_pos(cl * 0x1_0000_0000, rate * 1000);
            assert(w < 0x8000_0000);
        }
        let sinw: i64 = sine_q16(w);
        let cosw: i64 = sine_q16(advance_phase(w, 0x4000_0000));
        let alpha: i64 = div_q16(sinw, 2 * (ql as i64));
        proof {
            lemma_div_pos_is_pos(sinw * 65536, 2 * (ql as int));
            lemma_div_is_ordered_by_denominator(sinw * 65536, 1310, 2 * (ql as int));
            lemma_div_is_ordered(sinw * 65536, (65536 * 65536) as int, 1310);
            assert(0 <= alpha <= 3278600);
        }
        let a0: i64 = 65536 + alpha;
        let b1_raw: i64 = 65536 - cosw;
        let b0_raw: i64 = ((b1_raw as u64) / 2) as i64;
        self.b0 = clamp_i64(div_q16(b0_raw, a0), -COEF_MAX, COEF_MAX);
        self.b1 = clamp_i64(div_q16(b1_raw, a0), -COEF_MAX, COEF_MAX);
        self.b2 = self.b0;
        self.a1 = clamp_i64(div_q16(-2 * cosw, a0), -COEF_MAX, COEF_MAX);
        self.a2 = clamp_i64(div_q16(65536 - alpha, a0), -COEF_MAX, COEF_MAX);
    }

    /// Feeds one sample through the filter. Whatever the coefficients,
    /// the output is bounded: saturation keeps every sample the filter
    /// ever produces inside [-FILTER_MAX, FILTER_MAX], so no input and
    /// no parameter choice can make it diverge.
    pub fn process(&mut self, x: i64) -> (y: i64)
        requires
            old(self).wf(),
            -65536 <= x <= 65536,
        ensures
            final(self).wf(),
            *final(self) == filter_state_spec(*old(self), x),
            y == filter_out_spec(*old(self), x),
            -1048576 <= y <= 1048576,
    {
        let b0: i64 = self.b0;
        let b1: i64 = self.b1;
        let b2: i64 = self.b2;
        let a1: i64 = self.a1;
        let a2: i64 = self.a2;
        let x1: i64 = self.x1;
        let x2: i64 = self.x2;
        let y1: i64 = self.y1;
        let y2: i64 = self.y2;
        proof {
            assert(-0x4000_0000_0000_0000 <= b0 * x <= 0x4000_0000_0000_0000)
                by (nonlinear_arith)
                requires -262144 <= b0 <= 262144, -65536 <= x <= 65536;
            assert(-0x4000_0000_0000_0000 <= b1 * x1 <= 0x4000_0000_0000_0000)
                by (nonlinear_arith)
                requires -262144 <= b1 <= 262144, -65536 <= x1 <= 65536;
            assert(-0x4000_0000_0000_0000 <= b2 * x2 <= 0x4000_0000_0000_0000)
                by (nonlinear_arith)
                requires -262144 <= b2 <= 262144, -65536 <= x2 <= 65536;
            assert(-0x4000_0000_0000_0000 <= a1 * y1 <= 0x4000_0000_0000_0000)
                by (nonlinear_arith)
                requires -262144 <= a1 <= 262144, -1048576 <= y1 <= 1048576;
            assert(-0x4000_0000_0000_0000 <= a2 * y2 <= 0x4000_0000_0000_0000)
                by (nonlinear_arith)
                requires -262144 <= a2 <= 262144, -1048576 <= y2 <= 1048576;
        }
        let acc: i64 = mul_q16(b0, x) + mul_q16(b1, x1) + mul_q16(b2, x2)
            - mul_q16(a1, y1) - mul_q16(a2, y2);
        let y: i64 = clamp_i64(acc, -FILTER_MAX, FILTER_MAX);
        self.x2 = self.x1;
        self.x1 = x;
        self.y2 = self.y1;
        self.y1 = y;
        y
    }
}

} // verus!
