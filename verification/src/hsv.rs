//! OkHSV: a gamut-constrained polar encoding of Oklab with a value
//! channel. Saturation and value live on the unit square and the whole
//! square maps inside the sRGB gamut.
//!
//! Hue is an angle in radians, canonically in (-pi, pi]; angles up to
//! +/- 2*pi are accepted and anything beyond is clamped. Saturation and
//! value are clamped into [0, 1]. An achromatic input (chroma zero) gets
//! the deterministic fallback hue 0, and a black input maps to
//! (0, 0, 0) exactly, where the defining formulas would divide zero by
//! zero.

use vstd::prelude::*;
use crate::fixed::{ONE, sp_mul, sp_div, sp_add, sp_sub, sp_max, fmul, fdiv, fadd, fsub,
    fmax};
use crate::root::{sp_chroma, sp_cbrt, chroma_of, fcbrt};
use crate::trig::{sp_clamp, sp_sin, sp_cos, sp_atan2, sin_fx, cos_fx, atan2_fx, TWO_PI_FX};
use crate::gamma::{sp_clamp01, sp_channel_to_gamma, linear_to_srgb};
use crate::oklab::{sp_linear_r, sp_linear_g, sp_linear_b, oklab_to_linear};
use crate::gamut::{LC, ST, sp_cusp_l, sp_cusp_c, sp_st_s, sp_st_t, sp_toe, sp_inverse_toe,
    find_cusp, toe, inverse_toe};
use crate::convert::{sp_srgb_lab_l, sp_srgb_lab_a, sp_srgb_lab_b, srgb_to_oklab};
use crate::color::{Srgb, OkHsv};

verus! {

/// 0.5, the saturation shape constant of OkHSV.
pub const HSV_S0: i64 = 2147483648;

/// The OkHSV triple of a gamma-encoded color, as (hue, saturation, value).
pub open spec fn sp_srgb_to_okhsv(r0: int, g0: int, b0: int) -> (int, int, int) {
    let l = sp_srgb_lab_l(r0, g0, b0);
    let aa = sp_srgb_lab_a(r0, g0, b0);
    let bb = sp_srgb_lab_b(r0, g0, b0);
    let c = sp_chroma(aa, bb);
    if l == 0 {
        (if c == 0 {
            0
        } else {
            sp_atan2(bb, aa)
        }, 0, 0)
    } else {
        let a_ = if c == 0 {
            ONE as int
        } else {
            sp_div(aa, c)
        };
        let b_ = if c == 0 {
            0
        } else {
            sp_div(bb, c)
        };
        let hue = if c == 0 {
            0
        } else {
            sp_atan2(bb, aa)
        };
        let cusp_l = sp_cusp_l(a_, b_);
        let cusp_c = sp_cusp_c(a_, b_);
        let st_s = sp_st_s(cusp_l, cusp_c);
        let st_t = sp_st_t(cusp_l, cusp_c);
        let k = sp_sub(ONE as int, sp_div(HSV_S0 as int, st_s));
        let t = sp_div(st_t, sp_add(c, sp_mul(l, st_t)));
        let l_v = sp_mul(t, l);
        let c_v = sp_mul(t, c);
        let l_vt = sp_inverse_toe(l_v);
        let c_vt = sp_div(sp_mul(c_v, l_vt), l_v);
        let sa = sp_mul(a_, c_vt);
        let sb = sp_mul(b_, c_vt);
        let mx = sp_max(sp_linear_r(l_vt, sa, sb), sp_max(sp_linear_g(l_vt, sa, sb), sp_max(
            sp_linear_b(l_vt, sa, sb), 0)));
        let scale_l = sp_cbrt(sp_div(ONE as int, mx));
        let lt = sp_toe(sp_div(l, scale_l));
        let sat = sp_div(sp_mul(sp_add(HSV_S0 as int, st_t), c_v), sp_add(sp_mul(st_t,
            HSV_S0 as int), sp_mul(st_t, sp_mul(k, c_v))));
        let val = sp_div(lt, l_v);
        (hue, sat, val)
    }
}

/// Converts a gamma-encoded color to OkHSV. Black maps to (0, 0, 0); any
/// achromatic color gets hue 0 and saturation 0.
pub fn srgb_to_okhsv(c: Srgb) -> (r: OkHsv)
    ensures
        r.hue as int == sp_srgb_to_okhsv(c.red as int, c.green as int, c.blue as int).0,
        r.saturation as int == sp_srgb_to_okhsv(c.red as int, c.green as int, c.blue as int).1,
        r.value as int == sp_srgb_to_okhsv(c.red as int, c.green as int, c.blue as int).2,
        c.red == 0 && c.green == 0 && c.blue == 0 ==> r == (OkHsv { hue: 0, saturation: 0,
            value: 0 }),
{
    let lab = srgb_to_oklab(c);
    let ch: i64 = chroma_of(lab.a, lab.b);
    if lab.lightness == 0 {
        let hue: i64 = if ch == 0 {
            0
        } else {
            atan2_fx(lab.b, lab.a)
        };
        proof {
            if c.red == 0 && c.green == 0 && c.blue == 0 {
                assert(sp_chroma(0, 0) == crate::root::floor_sqrt(0));
            }
        }
        OkHsv { hue, saturation: 0, value: 0 }
    } else {
        let a_: i64 = if ch == 0 {
            ONE
        } else {
            fdiv(lab.a, ch)
        };
        let b_: i64 = if ch == 0 {
            0
        } else {
            fdiv(lab.b, ch)
        };
        let hue: i64 = if ch == 0 {
            0
        } else {
            atan2_fx(lab.b, lab.a)
        };
        let cusp: LC = find_cusp(a_, b_);
        let st_max: ST = ST::from_cusp(cusp);
        let k: i64 = fsub(ONE, fdiv(HSV_S0, st_max.s));
        let t: i64 = fdiv(st_max.t, fadd(ch, fmul(lab.lightness, st_max.t)));
        let l_v: i64 = fmul(t, lab.lightness);
        let c_v: i64 = fmul(t, ch);
        let l_vt: i64 = inverse_toe(l_v);
        let c_vt: i64 = fdiv(fmul(c_v, l_vt), l_v);
        let rgb_scale = oklab_to_linear(crate::color::OkLab {
            lightness: l_vt,
            a: fmul(a_, c_vt),
            b: fmul(b_, c_vt),
        });
        let mx: i64 = fmax(rgb_scale.red, fmax(rgb_scale.green, fmax(rgb_scale.blue, 0)));
        let scale_l: i64 = fcbrt(fdiv(ONE, mx));
        let lt: i64 = toe(fdiv(lab.lightness, scale_l));
        let sat: i64 = fdiv(fmul(fadd(HSV_S0, st_max.t), c_v), fadd(fmul(st_max.t, HSV_S0), fmul(
            st_max.t, fmul(k, c_v))));
        let val: i64 = fdiv(lt, l_v);
        OkHsv { hue, saturation: sat, value: val }
    }
}

/// The sRGB triple of an OkHSV color, as (red, green, blue).
pub open spec fn sp_okhsv_to_srgb(h0: int, s0: int, v0: int) -> (int, int, int) {
    let h = sp_clamp(h0, -(TWO_PI_FX as int), TWO_PI_FX as int);
    let s = sp_clamp01(s0);
    let v = sp_clamp01(v0);
    let a_ = sp_cos(h);
    let b_ = sp_sin(h);
    let cusp_l = sp_cusp_l(a_, b_);
    let cusp_c = sp_cusp_c(a_, b_);
    let st_s = sp_st_s(cusp_l, cusp_c);
    let st_t = sp_st_t(cusp_l, cusp_c);
    let k = sp_sub(ONE as int, sp_div(HSV_S0 as int, st_s));
    let den = sp_sub(sp_add(HSV_S0 as int, st_t), sp_mul(st_t, sp_mul(k, s)));
    let l_v = sp_sub(ONE as int, sp_div(sp_mul(s, HSV_S0 as int), den));
    let c_v = sp_div(sp_mul(sp_mul(s, st_t), HSV_S0 as int), den);
    let l0 = sp_mul(v, l_v);
    let c0 = sp_mul(v, c_v);
    let l_vt = sp_inverse_toe(l_v);
    let c_vt = sp_div(sp_mul(c_v, l_vt), l_v);
    let l1 = if l0 == 0 {
        0
    } else {
        sp_inverse_toe(l0)
    };
    let c1 = if l0 == 0 {
        0
    } else {
        sp_div(sp_mul(c0, sp_inverse_toe(l0)), l0)
    };
    let sa = sp_mul(a_, c_vt);
    let sb = sp_mul(b_, c_vt);
    let mx = sp_max(sp_linear_r(l_vt, sa, sb), sp_max(sp_linear_g(l_vt, sa, sb), sp_max(
        sp_linear_b(l_vt, sa, sb), 0)));
    let scale_l = sp_cbrt(sp_div(ONE as int, mx));
    let lf = sp_mul(l1, scale_l);
    let cf = sp_mul(c1, scale_l);
    let fa = sp_mul(cf, a_);
    let fb = sp_mul(cf, b_);
    (sp_channel_to_gamma(sp_linear_r(lf, fa, fb)), sp_channel_to_gamma(sp_linear_g(lf, fa, fb)),
        sp_channel_to_gamma(sp_linear_b(lf, fa, fb)))
}

/// Converts an OkHSV color to gamma-encoded sRGB. The hue is clamped into
/// [-2*pi, 2*pi], saturation and value into [0, 1]; a value at or below
/// zero yields exact black, whatever the hue and saturation.
pub fn okhsv_to_srgb(c: OkHsv) -> (r: Srgb)
    ensures
        r.red as int == sp_okhsv_to_srgb(c.hue as int, c.saturation as int, c.value as int).0,
        r.green as int == sp_okhsv_to_srgb(c.hue as int, c.saturation as int, c.value as int).1,
        r.blue as int == sp_okhsv_to_srgb(c.hue as int, c.saturation as int, c.value as int).2,
        c.value <= 0 ==> r == (Srgb { red: 0, green: 0, blue: 0 }),
{
    let h: i64 = if c.hue < -TWO_PI_FX {
        -TWO_PI_FX
    } else if c.hue > TWO_PI_FX {
        TWO_PI_FX
    } else {
        c.hue
    };
    let s: i64 = if c.saturation < 0 {
        0
    } else if c.saturation > ONE {
        ONE
    } else {
        c.saturation
    };
    let v: i64 = if c.value < 0 {
        0
    } else if c.value > ONE {
        ONE
    } else {
        c.value
    };
    let a_: i64 = cos_fx(h);
    let b_: i64 = sin_fx(h);
    let cusp: LC = find_cusp(a_, b_);
    let st_max: ST = ST::from_cusp(cusp);
    let k: i64 = fsub(ONE, fdiv(HSV_S0, st_max.s));
    let den: i64 = fsub(fadd(HSV_S0, st_max.t), fmul(st_max.t, fmul(k, s)));
    let l_v: i64 = fsub(ONE, fdiv(fmul(s, HSV_S0), den));
    let c_v: i64 = fdiv(fmul(fmul(s, st_max.t), HSV_S0), den);
    let l0: i64 = fmul(v, l_v);
    let c0: i64 = fmul(v, c_v);
    let l_vt: i64 = inverse_toe(l_v);
    let c_vt: i64 = fdiv(fmul(c_v, l_vt), l_v);
    let l1: i64 = if l0 == 0 {
        0
    } else {
        inverse_toe(l0)
    };
    let c1: i64 = if l0 == 0 {
        0
    } else {
        fdiv(fmul(c0, inverse_toe(l0)), l0)
    };
    let rgb_scale = oklab_to_linear(crate::color::OkLab {
        lightness: l_vt,
        a: fmul(a_, c_vt),
        b: fmul(b_, c_vt),
    });
    let mx: i64 = fmax(rgb_scale.red, fmax(rgb_scale.green, fmax(rgb_scale.blue, 0)));
    let scale_l: i64 = fcbrt(fdiv(ONE, mx));
    let lf: i64 = fmul(l1, scale_l);
    let cf: i64 = fmul(c1, scale_l);
    proof {
        if c.value <= 0 {
            crate::fixed::lemma_mul_zero(l_v as int);
            crate::fixed::lemma_mul_zero(c_v as int);
            crate::fixed::lemma_mul_zero(scale_l as int);
            crate::fixed::lemma_mul_zero(a_ as int);
            crate::fixed::lemma_mul_zero(b_ as int);
            crate::convert::lemma_linear_of_zero();
            crate::fixed::lemma_mul_zero(crate::gamma::GAMMA_SLOPE as int);
        }
    }
    linear_to_srgb(oklab_to_linear(crate::color::OkLab {
        lightness: lf,
        a: fmul(cf, a_),
        b: fmul(cf, b_),
    }))
}

} // verus!
