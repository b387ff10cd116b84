//! OkHSL: the gamut-constrained polar encoding of Oklab that preserves
//! lightness. Saturation is shaped by the three reference chromas c0,
//! c_mid and c_max, in two rational interpolation regimes that meet with a
//! matched derivative at the fixed breakpoint 0.8.
//!
//! Hue is an angle in radians, canonically in (-pi, pi]; angles up to
//! +/- 2*pi are accepted and anything beyond is clamped. Saturation and
//! lightness are clamped into [0, 1]. Lightness 0 and 1 are
//! short-circuited to exact black and white, and an achromatic input gets
//! the deterministic fallback hue 0 and saturation 0, where the defining
//! formulas would divide zero by zero.

use vstd::prelude::*;
use crate::fixed::{ONE, sp_mul, sp_div, sp_add, sp_sub, fmul, fdiv, fadd, fsub};
use crate::root::{sp_chroma, chroma_of};
use crate::trig::{sp_clamp, sp_sin, sp_cos, sp_atan2, sin_fx, cos_fx, atan2_fx, TWO_PI_FX};
use crate::gamma::{sp_clamp01, sp_channel_to_gamma};
use crate::oklab::{sp_linear_r, sp_linear_g, sp_linear_b};
use crate::gamut::{Cs, sp_cs_parts, sp_toe, sp_inverse_toe, toe, inverse_toe};
use crate::convert::{sp_srgb_lab_l, sp_srgb_lab_a, sp_srgb_lab_b, srgb_to_oklab, oklab_to_srgb};
use crate::color::{Srgb, OkHsl, OkLab};

verus! {

/// 0.8, the saturation breakpoint between the two interpolation regimes.
pub const HSL_MID: i64 = 3435973837;

/// 1.25, the reciprocal of the breakpoint.
pub const HSL_MID_INV: i64 = 5368709120;

/// The OkHSL triple of a gamma-encoded color, as
/// (hue, saturation, lightness).
pub open spec fn sp_srgb_to_okhsl(r0: int, g0: int, b0: int) -> (int, int, int) {
    let l = sp_srgb_lab_l(r0, g0, b0);
    let aa = sp_srgb_lab_a(r0, g0, b0);
    let bb = sp_srgb_lab_b(r0, g0, b0);
    let c = sp_chroma(aa, bb);
    if l == 0 {
        (0, 0, 0)
    } else if c == 0 {
        (0, 0, sp_toe(l))
    } else {
        let a_ = sp_div(aa, c);
        let b_ = sp_div(bb, c);
        let hue = sp_atan2(bb, aa);
        let c_0 = sp_cs_parts(l, a_, b_).0;
        let c_mid = sp_cs_parts(l, a_, b_).1;
        let c_max = sp_cs_parts(l, a_, b_).2;
        let sat = if c < c_mid {
            let k_1 = sp_mul(HSL_MID as int, c_0);
            let k_2 = sp_sub(ONE as int, sp_div(k_1, c_mid));
            sp_div(sp_mul(HSL_MID as int, c), sp_add(k_1, sp_mul(k_2, c)))
        } else {
            let k_1 = sp_div(sp_mul(sp_sub(ONE as int, HSL_MID as int), sp_mul(sp_mul(c_mid,
                c_mid), sp_mul(HSL_MID_INV as int, HSL_MID_INV as int))), c_0);
            let k_2 = sp_sub(ONE as int, sp_div(k_1, sp_sub(c_max, c_mid)));
            let d = sp_sub(c, c_mid);
            sp_add(HSL_MID as int, sp_div(sp_mul(sp_sub(ONE as int, HSL_MID as int), d), sp_add(
                k_1, sp_mul(k_2, d))))
        };
        (hue, sat, sp_toe(l))
    }
}

/// Converts a gamma-encoded color to OkHSL; the reported lightness is the
/// toe remapping of the Oklab lightness. Black maps to (0, 0, 0) exactly;
/// any achromatic color gets hue 0 and saturation 0.
pub fn srgb_to_okhsl(c: Srgb) -> (r: OkHsl)
    ensures
        r.hue as int == sp_srgb_to_okhsl(c.red as int, c.green as int, c.blue as int).0,
        r.saturation as int == sp_srgb_to_okhsl(c.red as int, c.green as int, c.blue as int).1,
        r.lightness as int == sp_srgb_to_okhsl(c.red as int, c.green as int, c.blue as int).2,
        c.red == 0 && c.green == 0 && c.blue == 0 ==> r == (OkHsl { hue: 0, saturation: 0,
            lightness: 0 }),
{
    let lab = srgb_to_oklab(c);
    let ch: i64 = chroma_of(lab.a, lab.b);
    if lab.lightness == 0 {
        proof {
            if c.red == 0 && c.green == 0 && c.blue == 0 {
                assert(sp_chroma(0, 0) == crate::root::floor_sqrt(0));
            }
        }
        OkHsl { hue: 0, saturation: 0, lightness: 0 }
    } else if ch == 0 {
        OkHsl { hue: 0, saturation: 0, lightness: toe(lab.lightness) }
    } else {
        let a_: i64 = fdiv(lab.a, ch);
        let b_: i64 = fdiv(lab.b, ch);
        let hue: i64 = atan2_fx(lab.b, lab.a);
        let cs: Cs = Cs::from_lab(OkLab { lightness: lab.lightness, a: a_, b: b_ });
        let sat: i64 = if ch < cs.c_mid {
            let k_1: i64 = fmul(HSL_MID, cs.c_0);
            let k_2: i64 = fsub(ONE, fdiv(k_1, cs.c_mid));
            fdiv(fmul(HSL_MID, ch), fadd(k_1, fmul(k_2, ch)))
        } else {
            let k_1: i64 = fdiv(fmul(fsub(ONE, HSL_MID), fmul(fmul(cs.c_mid, cs.c_mid), fmul(
                HSL_MID_INV, HSL_MID_INV))), cs.c_0);
            let k_2: i64 = fsub(ONE, fdiv(k_1, fsub(cs.c_max, cs.c_mid)));
            let d: i64 = fsub(ch, cs.c_mid);
            fadd(HSL_MID, fdiv(fmul(fsub(ONE, HSL_MID), d), fadd(k_1, fmul(k_2, d))))
        };
        OkHsl { hue, saturation: sat, lightness: toe(lab.lightness) }
    }
}

/// The sRGB triple of an OkHSL color, as (red, green, blue).
pub open spec fn sp_okhsl_to_srgb(h0: int, s0: int, li0: int) -> (int, int, int) {
    let h = sp_clamp(h0, -(TWO_PI_FX as int), TWO_PI_FX as int);
    let s = sp_clamp01(s0);
    let li = sp_clamp01(li0);
    if li == ONE {
        (ONE as int, ONE as int, ONE as int)
    } else if li == 0 {
        (0, 0, 0)
    } else {
        let a_ = sp_cos(h);
        let b_ = sp_sin(h);
        let l = sp_inverse_toe(li);
        let c_0 = sp_cs_parts(l, a_, b_).0;
        let c_mid = sp_cs_parts(l, a_, b_).1;
        let c_max = sp_cs_parts(l, a_, b_).2;
        let c = if s < HSL_MID {
            let t = sp_mul(HSL_MID_INV as int, s);
            let k_1 = sp_mul(HSL_MID as int, c_0);
            let k_2 = sp_sub(ONE as int, sp_div(k_1, c_mid));
            sp_div(sp_mul(t, k_1), sp_sub(ONE as int, sp_mul(k_2, t)))
        } else {
            let t = sp_div(sp_sub(s, HSL_MID as int), sp_sub(ONE as int, HSL_MID as int));
            let k_1 = sp_div(sp_mul(sp_sub(ONE as int, HSL_MID as int), sp_mul(sp_mul(c_mid,
                c_mid), sp_mul(HSL_MID_INV as int, HSL_MID_INV as int))), c_0);
            let k_2 = sp_sub(ONE as int, sp_div(k_1, sp_sub(c_max, c_mid)));
            sp_add(c_mid, sp_div(sp_mul(t, k_1), sp_sub(ONE as int, sp_mul(k_2, t))))
        };
        let fa = sp_mul(c, a_);
        let fb = sp_mul(c, b_);
        (sp_channel_to_gamma(sp_linear_r(l, fa, fb)), sp_channel_to_gamma(sp_linear_g(l, fa, fb)),
            sp_channel_to_gamma(sp_linear_b(l, fa, fb)))
    }
}

/// Converts an OkHSL color to gamma-encoded sRGB. The hue is clamped into
/// [-2*pi, 2*pi], saturation and lightness into [0, 1]. Lightness 1 yields
/// exactly white and lightness 0 exactly black, whatever the hue and
/// saturation.
pub fn okhsl_to_srgb(c: OkHsl) -> (r: Srgb)
    ensures
        r.red as int == sp_okhsl_to_srgb(c.hue as int, c.saturation as int,
            c.lightness as int).0,
        r.green as int == sp_okhsl_to_srgb(c.hue as int, c.saturation as int,
            c.lightness as int).1,
        r.blue as int == sp_okhsl_to_srgb(c.hue as int, c.saturation as int,
            c.lightness as int).2,
        c.lightness >= ONE ==> r == (Srgb { red: ONE, green: ONE, blue: ONE }),
        c.lightness <= 0 ==> r == (Srgb { red: 0, green: 0, blue: 0 }),
{
    let h: i64 = if c.hue < -TWO_PI_FX {
        -TWO_PI_FX
    } else if c.hue > TWO_PI_FX {
        TWO_PI_FX
    } else {
        c.hue
    };
    let s: i64 = if c.saturation < 0 {
        0
    } else if c.saturation > ONE {
        ONE
    } else {
        c.saturation
    };
    let li: i64 = if c.lightness < 0 {
        0
    } else if c.lightness > ONE {
        ONE
    } else {
        c.lightness
    };
    if li == ONE {
        Srgb { red: ONE, green: ONE, blue: ONE }
    } else if li == 0 {
        Srgb { red: 0, green: 0, blue: 0 }
    } else {
        let a_: i64 = cos_fx(h);
        let b_: i64 = sin_fx(h);
        let l: i64 = inverse_toe(li);
        let cs: Cs = Cs::from_lab(OkLab { lightness: l, a: a_, b: b_ });
        let cr: i64 = if s < HSL_MID {
            let t: i64 = fmul(HSL_MID_INV, s);
            let k_1: i64 = fmul(HSL_MID, cs.c_0);
            let k_2: i64 = fsub(ONE, fdiv(k_1, cs.c_mid));
            fdiv(fmul(t, k_1), fsub(ONE, fmul(k_2, t)))
        } else {
            let t: i64 = fdiv(fsub(s, HSL_MID), fsub(ONE, HSL_MID));
            let k_1: i64 = fdiv(fmul(fsub(ONE, HSL_MID), fmul(fmul(cs.c_mid, cs.c_mid), fmul(
                HSL_MID_INV, HSL_MID_INV))), cs.c_0);
            let k_2: i64 = fsub(ONE, fdiv(k_1, fsub(cs.c_max, cs.c_mid)));
            fadd(cs.c_mid, fdiv(fmul(t, k_1), fsub(ONE, fmul(k_2, t))))
        };
        oklab_to_srgb(OkLab { lightness: l, a: fmul(cr, a_), b: fmul(cr, b_) })
    }
}

} // verus!
