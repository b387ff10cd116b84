//! The sRGB transfer function pair: gamma decoding to linear light and
//! gamma encoding back, applied independently per channel.
//!
//! Decoding uses ((v + 0.055)/1.055)^2.4 above the threshold 0.04045 and
//! v/12.92 below it; encoding uses 1.055*v^(1/2.4) - 0.055 above 0.0031308
//! and 12.92*v below. The fractional powers are exact floor roots:
//! v^(1/2.4) = (cbrt(sqrt(sqrt(v))))^5 and u^2.4 = u^2 * (u^(1/5))^2.
//! Decoding clamps its input into [0, 1] (saturating semantics for
//! out-of-range inputs); encoding is total on the fixed-point range.

use vstd::prelude::*;
use crate::fixed::{ONE, CAP, sp_mul, sp_div, sp_add, sp_sub, fmul, fdiv, fadd, fsub};
use crate::root::{sp_sqrt, sp_cbrt, sp_root5, fsqrt, fcbrt, froot5, floor_root5, lemma_floor_root5_unique};
use crate::color::{Srgb, LinSrgb};

verus! {

/// 12.92, the linear-segment slope, at scale 2^32.
pub const GAMMA_SLOPE: i64 = 55490977464;

/// 1.055 at scale 2^32.
pub const GAMMA_A: i64 = 4531190497;

/// 0.055 at scale 2^32.
pub const GAMMA_B: i64 = 236223201;

/// The gamma-side branch threshold 0.04045 at scale 2^32.
pub const SRGB_CUT: i64 = 173731427;

/// The linear-side branch threshold 0.0031308 at scale 2^32.
pub const LINEAR_CUT: i64 = 13446684;

pub open spec fn sp_clamp01(v: int) -> int {
    if v < 0 {
        0
    } else if v > ONE {
        ONE as int
    } else {
        v
    }
}

/// One gamma-encoded channel decoded to linear light.
pub open spec fn sp_channel_to_linear(v: int) -> int {
    if v >= SRGB_CUT {
        let u = sp_div(sp_add(v, GAMMA_B as int), GAMMA_A as int);
        let q = sp_root5(u);
        sp_mul(sp_mul(u, u), sp_mul(q, q))
    } else {
        sp_div(v, GAMMA_SLOPE as int)
    }
}

/// One linear channel encoded for display.
pub open spec fn sp_channel_to_gamma(v: int) -> int {
    if v >= LINEAR_CUT {
        let w = sp_cbrt(sp_sqrt(sp_sqrt(v)));
        let w5 = sp_mul(sp_mul(sp_mul(sp_mul(w, w), w), w), w);
        sp_sub(sp_mul(GAMMA_A as int, w5), GAMMA_B as int)
    } else {
        sp_mul(GAMMA_SLOPE as int, v)
    }
}

pub fn channel_to_linear(v: i64) -> (r: i64)
    ensures
        r as int == sp_channel_to_linear(v as int),
        0 <= v <= ONE ==> 0 <= r as int <= ONE,
        v == 0 ==> r == 0,
        v == ONE ==> r == ONE,
{
    if v >= SRGB_CUT {
        let u: i64 = fdiv(fadd(v, GAMMA_B), GAMMA_A);
        let q: i64 = froot5(u);
        let r: i64 = fmul(fmul(u, u), fmul(q, q));
        proof {
            if v <= ONE {
                assert(0 <= u as int <= ONE) by (nonlinear_arith)
                    requires
                        u as int == sp_div(sp_add(v as int, GAMMA_B as int), GAMMA_A as int),
                        SRGB_CUT <= v <= ONE,
                ;
                let u25 = (u as int) / 128;
                vstd::arithmetic::div_mod::lemma_div_pos_is_pos(u as int, 128);
                vstd::arithmetic::div_mod::lemma_div_is_ordered(u as int, ONE as int, 128);
                assert(0 <= u25 <= 0x200_0000int);
                let n = u25 * 0x10_0000_0000_0000_0000_0000_0000int;
                assert(0 <= n <= 0x200_0000int * 0x10_0000_0000_0000_0000_0000_0000int)
                    by (nonlinear_arith)
                    requires
                        0 <= u25 <= 0x200_0000int,
                        n == u25 * 0x10_0000_0000_0000_0000_0000_0000int,
                ;
                crate::root::lemma_floor_root5(n);
                let f = floor_root5(n);
                if f > 0x200_0000int {
                    assert(f * f * f * f * f > 0x200_0000int
                        * 0x10_0000_0000_0000_0000_0000_0000int) by (nonlinear_arith)
                        requires
                            f > 0x200_0000int,
                    ;
                }
                assert(0 <= q as int <= ONE);
                if v == ONE {
                    vstd::arithmetic::div_mod::lemma_div_by_multiple(ONE as int, GAMMA_A as int);
                    assert((ONE as int) * (GAMMA_A as int) == (GAMMA_A as int) * (ONE as int))
                        by (nonlinear_arith);
                    assert(u as int == ONE as int);
                    vstd::arithmetic::div_mod::lemma_div_by_multiple(0x200_0000int, 128);
                    assert(u25 == 0x200_0000int);
                    crate::root::lemma_floor_root5_unique(n, 0x200_0000int);
                    assert(q as int == ONE as int);
                    vstd::arithmetic::div_mod::lemma_div_by_multiple(ONE as int, ONE as int);
                    assert(sp_mul(ONE as int, ONE as int) == ONE as int);
                }
                assert(0 <= sp_mul(u as int, u as int) <= ONE && 0 <= sp_mul(q as int, q as int)
                    <= ONE) by (nonlinear_arith)
                    requires
                        0 <= u as int <= ONE,
                        0 <= q as int <= ONE,
                        ONE == 0x1_0000_0000i64,
                        CAP == 0x100_0000_0000_0000i64,
                ;
                assert(0 <= r as int <= ONE) by (nonlinear_arith)
                    requires
                        r as int == sp_mul(sp_mul(u as int, u as int), sp_mul(q as int,
                            q as int)),
                        0 <= sp_mul(u as int, u as int) <= ONE,
                        0 <= sp_mul(q as int, q as int) <= ONE,
                        ONE == 0x1_0000_0000i64,
                        CAP == 0x100_0000_0000_0000i64,
                ;
            }
        }
        r
    } else {
        let r: i64 = fdiv(v, GAMMA_SLOPE);
        proof {
            if 0 <= v {
                assert(0 <= r as int <= ONE) by (nonlinear_arith)
                    requires
                        r as int == sp_div(v as int, GAMMA_SLOPE as int),
                        0 <= v < SRGB_CUT,
                ;
            }
            if v == 0 {
                crate::fixed::lemma_div_zero(GAMMA_SLOPE as int);
            }
        }
        r
    }
}

pub fn channel_to_gamma(v: i64) -> (r: i64)
    ensures
        r as int == sp_channel_to_gamma(v as int),
{
    if v >= LINEAR_CUT {
        let w: i64 = fcbrt(fsqrt(fsqrt(v)));
        let w5: i64 = fmul(fmul(fmul(fmul(w, w), w), w), w);
        fsub(fmul(GAMMA_A, w5), GAMMA_B)
    } else {
        fmul(GAMMA_SLOPE, v)
    }
}

/// Decodes a gamma-encoded color to linear light, channel by channel.
pub fn srgb_to_linear(c: Srgb) -> (r: LinSrgb)
    ensures
        r.red as int == sp_channel_to_linear(c.red as int),
        r.green as int == sp_channel_to_linear(c.green as int),
        r.blue as int == sp_channel_to_linear(c.blue as int),
{
    LinSrgb {
        red: channel_to_linear(c.red),
        green: channel_to_linear(c.green),
        blue: channel_to_linear(c.blue),
    }
}

/// Encodes a linear-light color for display, channel by channel.
pub fn linear_to_srgb(c: LinSrgb) -> (r: Srgb)
    ensures
        r.red as int == sp_channel_to_gamma(c.red as int),
        r.green as int == sp_channel_to_gamma(c.green as int),
        r.blue as int == sp_channel_to_gamma(c.blue as int),
{
    Srgb {
        red: channel_to_gamma(c.red),
        green: channel_to_gamma(c.green),
        blue: channel_to_gamma(c.blue),
    }
}

} // verus!
