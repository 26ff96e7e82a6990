//! Q16.16 fixed-point arithmetic: multiplication and division that round
//! toward negative infinity, clamping, and the lemmas the signal chain
//! needs about them.

use vstd::prelude::*;
use vstd::arithmetic::div_mod::{
    lemma_div_is_ordered, lemma_div_multiples_vanish, lemma_fundamental_div_mod,
    lemma_fundamental_div_mod_converse,
};

verus! {

/// The mathematical value of a Q16.16 product: floor(a*b / 65536).
pub open spec fn mul_q16_spec(a: int, b: int) -> int {
    (a * b) / 65536
}

/// The mathematical value of a Q16.16 quotient: floor(a*65536 / b).
pub open spec fn div_q16_spec(a: int, b: int) -> int {
    (a * 65536) / b
}

pub open spec fn clamp_spec(x: int, lo: int, hi: int) -> int {
    if x < lo {
        lo
    } else if x > hi {
        hi
    } else {
        x
    }
}

/// Floor division of a negated non-negative numerator, written with the
/// round-up form that unsigned machine division can compute.
proof fn lemma_neg_div(p: int, d: int)
    requires
        p >= 0,
        d >= 1,
    ensures
        (-p) / d == -((p + d - 1) / d),
{
    let q = p / d;
    let r = p % d;
    lemma_fundamental_div_mod(p, d);
    if r == 0 {
        assert(-p == (-q) * d + 0) by (nonlinear_arith)
            requires p == d * q + r, r == 0;
        lemma_fundamental_div_mod_converse(-p, d, -q, 0);
        assert(p + d - 1 == q * d + (d - 1)) by (nonlinear_arith)
            requires p == d * q + r, r == 0;
        lemma_fundamental_div_mod_converse(p + d - 1, d, q, d - 1);
    } else {
        assert(-p == (-q - 1) * d + (d - r)) by (nonlinear_arith)
            requires p == d * q + r;
        lemma_fundamental_div_mod_converse(-p, d, -q - 1, d - r);
        assert(p + d - 1 == (q + 1) * d + (r - 1)) by (nonlinear_arith)
            requires p == d * q + r;
        lemma_fundamental_div_mod_converse(p + d - 1, d, q + 1, r - 1);
    }
}

/// Q16.16 multiply, rounding toward negative infinity.
pub fn mul_q16(a: i64, b: i64) -> (r: i64)
    requires
        -0x4000_0000_0000_0000 <= a * b <= 0x4000_0000_0000_0000,
    ensures
        r == mul_q16_spec(a as int, b as int),
        -0x4000_0000_0000 <= r <= 0x4000_0000_0000,
{
    proof {
        lemma_div_is_ordered(a * b, 0x4000_0000_0000_0000, 65536);
        lemma_div_is_ordered(-0x4000_0000_0000_0000, a * b, 65536);
    }
    let neg: bool = (a < 0) != (b < 0);
    let ua: u128 = if a >= 0 { a as u128 } else { (-(a as i128)) as u128 };
    let ub: u128 = if b >= 0 { b as u128 } else { (-(b as i128)) as u128 };
    proof {
        assert(ua * ub <= 0x4000_0000_0000_0000_0000_0000_0000_0000) by (nonlinear_arith)
            requires
                ua <= 0x8000_0000_0000_0000,
                ub <= 0x8000_0000_0000_0000;
    }
    let p: u128 = ua * ub;
    proof {
        if neg {
            assert(a * b == -(ua * ub)) by (nonlinear_arith)
                requires
                    (a < 0) != (b < 0),
                    a >= 0 ==> ua == a,
                    a < 0 ==> ua == -(a as int),
                    b >= 0 ==> ub == b,
                    b < 0 ==> ub == -(b as int);
        } else {
            assert(a * b == ua * ub) by (nonlinear_arith)
                requires
                    !((a < 0) != (b < 0)),
                    a >= 0 ==> ua == a,
                    a < 0 ==> ua == -(a as int),
                    b >= 0 ==> ub == b,
                    b < 0 ==> ub == -(b as int);
        }
    }
    if !neg {
        (p / 65536) as i64
    } else {
        let q: u128 = (p + 65535) / 65536;
        proof {
            lemma_neg_div(p as int, 65536);
        }
        -(q as i64)
    }
}

/// Q16.16 divide by a positive divisor, rounding toward negative infinity.
pub fn div_q16(a: i64, b: i64) -> (r: i64)
    requires
        b >= 1,
        -0x4000_0000_0000 <= a <= 0x4000_0000_0000,
    ensures
        r == div_q16_spec(a as int, b as int),
        -0x4000_0000_0000_0000 <= r <= 0x4000_0000_0000_0000,
{
    if a >= 0 {
        let p: u128 = (a as u128) * 65536;
        let q: u128 = p / (b as u128);
        proof {
            assert((p as int) / (b as int) <= p as int) by (nonlinear_arith)
                requires p >= 0, b >= 1;
        }
        q as i64
    } else {
        let p: u128 = ((-(a as i128)) as u128) * 65536;
        let q: u128 = (p + (b as u128) - 1) / (b as u128);
        proof {
            lemma_neg_div(p as int, b as int);
            assert((p as int + b as int - 1) / (b as int) <= p as int) by (nonlinear_arith)
                requires p >= 65536, b >= 1;
        }
        -(q as i64)
    }
}

/// Clamp into [lo, hi].
pub fn clamp_i64(x: i64, lo: i64, hi: i64) -> (r: i64)
    requires
        lo <= hi,
    ensures
        r == clamp_spec(x as int, lo as int, hi as int),
{
    if x < lo {
        lo
    } else if x > hi {
        hi
    } else {
        x
    }
}

/// Clamp into [lo, hi].
pub fn clamp_u32(x: u32, lo: u32, hi: u32) -> (r: u32)
    requires
        lo <= hi,
    ensures
        r == clamp_spec(x as int, lo as int, hi as int),
{
    if x < lo {
        lo
    } else if x > hi {
        hi
    } else {
        x
    }
}

/// Scaling a value by a factor in [0, 1] (Q16.16) never grows its
/// magnitude and never flips its sign.
pub proof fn lemma_scale_q16_bounded(a: int, f: int)
    requires
        0 <= f <= 65536,
    ensures
        a >= 0 ==> 0 <= mul_q16_spec(a, f) <= a,
        a < 0 ==> a <= mul_q16_spec(a, f) <= 0,
{
    if a >= 0 {
        assert(0 <= a * f <= a * 65536) by (nonlinear_arith)
            requires a >= 0, 0 <= f <= 65536;
        lemma_div_is_ordered(0, a * f, 65536);
        lemma_div_is_ordered(a * f, a * 65536, 65536);
        lemma_div_multiples_vanish(a, 65536);
        assert(a * 65536 == 65536 * a) by (nonlinear_arith);
    } else {
        assert(a * 65536 <= a * f <= 0) by (nonlinear_arith)
            requires a < 0, 0 <= f <= 65536;
        lemma_div_is_ordered(a * 65536, a * f, 65536);
        lemma_div_is_ordered(a * f, 0, 65536);
        lemma_div_multiples_vanish(a, 65536);
        assert(a * 65536 == 65536 * a) by (nonlinear_arith);
    }
}

/// Clamping is idempotent: clamping an already clamped value changes
/// nothing.
pub proof fn lemma_clamp_idempotent(x: int, lo: int, hi: int)
    requires
        lo <= hi,
    ensures
        clamp_spec(clamp_spec(x, lo, hi), lo, hi) == clamp_spec(x, lo, hi),
{
}

} // verus!
