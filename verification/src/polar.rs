//! Oklab to its polar form OkLCh and back: chroma is the exact magnitude
//! of the (a, b) pair, hue its angle; the inverse rebuilds (a, b) from
//! chroma and the cosine and sine of the hue.

use vstd::prelude::*;
use crate::fixed::{sp_sat, sp_abs, sp_mul, fmul, fsat};
use crate::root::sp_chroma;
use crate::trig::{sp_atan2, sp_sin, sp_cos, atan2_fx, sin_fx, cos_fx};
use crate::color::{OkLab, OkLCh};

verus! {

/// Converts Oklab to OkLCh. The a and b channels are clamped into the
/// fixed-point range first; chroma is exact to one unit and never
/// negative; the hue of an achromatic color (a == b == 0) is zero.
pub fn oklab_to_oklch(c: OkLab) -> (r: OkLCh)
    ensures
        r.lightness == c.lightness,
        r.chroma as int == sp_chroma(sp_sat(c.a as int), sp_sat(c.b as int)),
        r.hue as int == sp_atan2(sp_sat(c.b as int), sp_sat(c.a as int)),
        r.chroma >= 0,
        c.a == 0 && c.b == 0 ==> r.chroma == 0 && r.hue == 0,
{
    let a: i64 = fsat(c.a);
    let b: i64 = fsat(c.b);
    let chroma: i64 = crate::root::chroma_of(a, b);
    let hue: i64 = atan2_fx(b, a);
    proof {
        if c.a == 0 && c.b == 0 {
            assert(sp_chroma(0, 0) == crate::root::floor_sqrt(0));
        }
    }
    OkLCh { lightness: c.lightness, chroma, hue }
}

/// Converts OkLCh back to Oklab: a = chroma * cos(hue),
/// b = chroma * sin(hue). A zero chroma yields a == b == 0, whatever the
/// hue.
pub fn oklch_to_oklab(c: OkLCh) -> (r: OkLab)
    ensures
        r.lightness == c.lightness,
        r.a as int == sp_mul(c.chroma as int, sp_cos(c.hue as int)),
        r.b as int == sp_mul(c.chroma as int, sp_sin(c.hue as int)),
        c.chroma == 0 ==> r.a == 0 && r.b == 0,
{
    let a: i64 = fmul(c.chroma, cos_fx(c.hue));
    let b: i64 = fmul(c.chroma, sin_fx(c.hue));
    proof {
        if c.chroma == 0 {
            vstd::arithmetic::div_mod::lemma_div_of0(4294967296int);
            assert(sp_abs(0int) == 0);
            assert(sp_abs(0int) * sp_abs(sp_cos(c.hue as int)) == 0) by (nonlinear_arith);
            assert(sp_abs(0int) * sp_abs(sp_sin(c.hue as int)) == 0) by (nonlinear_arith);
            assert(sp_mul(0int, sp_cos(c.hue as int)) == 0);
            assert(sp_mul(0int, sp_sin(c.hue as int)) == 0);
        }
    }
    OkLab { lightness: c.lightness, a, b }
}

} // verus!
