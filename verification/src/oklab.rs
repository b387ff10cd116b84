//! Linear sRGB to Oklab and back: two fixed 3x3 matrix multiplications with
//! a cube root (forward) or cube (inverse) on the intermediate LMS vector.
//!
//! The matrix entries are the published Oklab constants to ten significant
//! digits, rounded to nearest at scale 2^32.

use vstd::prelude::*;
use crate::fixed::{CAP, sp_mul, sp_add, fmul, fadd};
use crate::root::{sp_cbrt, fcbrt};
use crate::color::{LinSrgb, OkLab};

verus! {

pub const MF1_00: i64 = 1770477736;  // 0.4122214708
pub const MF1_01: i64 = 2303530703;  // 0.5363325363
pub const MF1_02: i64 = 220958857;  // 0.0514459929
pub const MF1_10: i64 = 910118595;  // 0.2119034982
pub const MF1_11: i64 = 2923582285;  // 0.6806995451
pub const MF1_12: i64 = 461266416;  // 0.1073969566
pub const MF1_20: i64 = 379256186;  // 0.0883024619
pub const MF1_21: i64 = 1209973194;  // 0.2817188376
pub const MF1_22: i64 = 2705737916;  // 0.6299787005

pub const MF2_00: i64 = 903894144;  // 0.2104542553
pub const MF2_01: i64 = 3408562432;  // 0.7936177850
pub const MF2_02: i64 = -17489308;  // -0.0040720468
pub const MF2_10: i64 = 8495438848;  // 1.9779984951
pub const MF2_11: i64 = -10430724096;  // -2.4285922050
pub const MF2_12: i64 = 1935285248;  // 0.4505937099
pub const MF2_20: i64 = 111256992;  // 0.0259040371
pub const MF2_21: i64 = 3361979136;  // 0.7827717662
pub const MF2_22: i64 = -3473235968;  // -0.8086757660

pub const MI1_01: i64 = 1702257792;  // 0.3963377774
pub const MI1_02: i64 = 926870080;  // 0.2158037573
pub const MI1_11: i64 = -453382528;  // -0.1055613458
pub const MI1_12: i64 = -274251584;  // -0.0638541728
pub const MI1_21: i64 = -384331616;  // -0.0894841775
pub const MI1_22: i64 = -5546888192;  // -1.2914855480

pub const MI2_00: i64 = 17509472113;  // 4.0767416621
pub const MI2_01: i64 = -14206513109;  // -3.3077115913
pub const MI2_02: i64 = 992008292;  // 0.2309699292
pub const MI2_10: i64 = -5447899747;  // -1.2684380046
pub const MI2_11: i64 = 11208822688;  // 2.6097574011
pub const MI2_12: i64 = -1465955645;  // -0.3413193965
pub const MI2_20: i64 = -18022053;  // -0.0041960863
pub const MI2_21: i64 = -3021159946;  // -0.7034186147
pub const MI2_22: i64 = 7334149295;  // 1.7076147010

/// One row of a matrix product: c0*x + c1*y + c2*z.
pub open spec fn sp_dot3(c0: int, c1: int, c2: int, x: int, y: int, z: int) -> int {
    sp_add(sp_add(sp_mul(c0, x), sp_mul(c1, y)), sp_mul(c2, z))
}

pub fn dot3(c0: i64, c1: i64, c2: i64, x: i64, y: i64, z: i64) -> (r: i64)
    ensures
        r as int == sp_dot3(c0 as int, c1 as int, c2 as int, x as int, y as int, z as int),
        -CAP <= r as int <= CAP,
{
    fadd(fadd(fmul(c0, x), fmul(c1, y)), fmul(c2, z))
}

/// The lightness channel of the Oklab image of a linear RGB triple.
pub open spec fn sp_oklab_l(r: int, g: int, b: int) -> int {
    let l_ = sp_cbrt(sp_dot3(MF1_00 as int, MF1_01 as int, MF1_02 as int, r, g, b));
    let m_ = sp_cbrt(sp_dot3(MF1_10 as int, MF1_11 as int, MF1_12 as int, r, g, b));
    let s_ = sp_cbrt(sp_dot3(MF1_20 as int, MF1_21 as int, MF1_22 as int, r, g, b));
    sp_dot3(MF2_00 as int, MF2_01 as int, MF2_02 as int, l_, m_, s_)
}

/// The a channel of the Oklab image of a linear RGB triple.
pub open spec fn sp_oklab_a(r: int, g: int, b: int) -> int {
    let l_ = sp_cbrt(sp_dot3(MF1_00 as int, MF1_01 as int, MF1_02 as int, r, g, b));
    let m_ = sp_cbrt(sp_dot3(MF1_10 as int, MF1_11 as int, MF1_12 as int, r, g, b));
    let s_ = sp_cbrt(sp_dot3(MF1_20 as int, MF1_21 as int, MF1_22 as int, r, g, b));
    sp_dot3(MF2_10 as int, MF2_11 as int, MF2_12 as int, l_, m_, s_)
}

/// The b channel of the Oklab image of a linear RGB triple.
pub open spec fn sp_oklab_b(r: int, g: int, b: int) -> int {
    let l_ = sp_cbrt(sp_dot3(MF1_00 as int, MF1_01 as int, MF1_02 as int, r, g, b));
    let m_ = sp_cbrt(sp_dot3(MF1_10 as int, MF1_11 as int, MF1_12 as int, r, g, b));
    let s_ = sp_cbrt(sp_dot3(MF1_20 as int, MF1_21 as int, MF1_22 as int, r, g, b));
    sp_dot3(MF2_20 as int, MF2_21 as int, MF2_22 as int, l_, m_, s_)
}

/// Converts linear RGB to Oklab: M1, a channel-wise cube root, then M2.
pub fn linear_to_oklab(c: LinSrgb) -> (r: OkLab)
    ensures
        r.lightness as int == sp_oklab_l(c.red as int, c.green as int, c.blue as int),
        r.a as int == sp_oklab_a(c.red as int, c.green as int, c.blue as int),
        r.b as int == sp_oklab_b(c.red as int, c.green as int, c.blue as int),
        -CAP <= r.lightness as int <= CAP,
        -CAP <= r.a as int <= CAP,
        -CAP <= r.b as int <= CAP,
{
    let l: i64 = dot3(MF1_00, MF1_01, MF1_02, c.red, c.green, c.blue);
    let m: i64 = dot3(MF1_10, MF1_11, MF1_12, c.red, c.green, c.blue);
    let s: i64 = dot3(MF1_20, MF1_21, MF1_22, c.red, c.green, c.blue);
    let l_: i64 = fcbrt(l);
    let m_: i64 = fcbrt(m);
    let s_: i64 = fcbrt(s);
    OkLab {
        lightness: dot3(MF2_00, MF2_01, MF2_02, l_, m_, s_),
        a: dot3(MF2_10, MF2_11, MF2_12, l_, m_, s_),
        b: dot3(MF2_20, MF2_21, MF2_22, l_, m_, s_),
    }
}

/// The cube of one reconstructed LMS coordinate: (l + c1*a + c2*b)^3.
pub open spec fn sp_lms_cube(l: int, a: int, b: int, c1: int, c2: int) -> int {
    let v = sp_add(l, sp_add(sp_mul(c1, a), sp_mul(c2, b)));
    sp_mul(sp_mul(v, v), v)
}

pub(crate) fn lms_cube(l: i64, a: i64, b: i64, c1: i64, c2: i64) -> (r: i64)
    ensures
        r as int == sp_lms_cube(l as int, a as int, b as int, c1 as int, c2 as int),
        -CAP <= r as int <= CAP,
{
    let v: i64 = fadd(l, fadd(fmul(c1, a), fmul(c2, b)));
    fmul(fmul(v, v), v)
}

/// The red channel of the linear RGB image of an Oklab triple.
pub open spec fn sp_linear_r(l: int, a: int, b: int) -> int {
    let lc = sp_lms_cube(l, a, b, MI1_01 as int, MI1_02 as int);
    let mc = sp_lms_cube(l, a, b, MI1_11 as int, MI1_12 as int);
    let sc = sp_lms_cube(l, a, b, MI1_21 as int, MI1_22 as int);
    sp_dot3(MI2_00 as int, MI2_01 as int, MI2_02 as int, lc, mc, sc)
}

/// The green channel of the linear RGB image of an Oklab triple.
pub open spec fn sp_linear_g(l: int, a: int, b: int) -> int {
    let lc = sp_lms_cube(l, a, b, MI1_01 as int, MI1_02 as int);
    let mc = sp_lms_cube(l, a, b, MI1_11 as int, MI1_12 as int);
    let sc = sp_lms_cube(l, a, b, MI1_21 as int, MI1_22 as int);
    sp_dot3(MI2_10 as int, MI2_11 as int, MI2_12 as int, lc, mc, sc)
}

/// The blue channel of the linear RGB image of an Oklab triple.
pub open spec fn sp_linear_b(l: int, a: int, b: int) -> int {
    let lc = sp_lms_cube(l, a, b, MI1_01 as int, MI1_02 as int);
    let mc = sp_lms_cube(l, a, b, MI1_11 as int, MI1_12 as int);
    let sc = sp_lms_cube(l, a, b, MI1_21 as int, MI1_22 as int);
    sp_dot3(MI2_20 as int, MI2_21 as int, MI2_22 as int, lc, mc, sc)
}

/// Converts Oklab to linear RGB: M1', a channel-wise cube, then M2'.
pub fn oklab_to_linear(c: OkLab) -> (r: LinSrgb)
    ensures
        r.red as int == sp_linear_r(c.lightness as int, c.a as int, c.b as int),
        r.green as int == sp_linear_g(c.lightness as int, c.a as int, c.b as int),
        r.blue as int == sp_linear_b(c.lightness as int, c.a as int, c.b as int),
        -CAP <= r.red as int <= CAP,
        -CAP <= r.green as int <= CAP,
        -CAP <= r.blue as int <= CAP,
{
    let lc: i64 = lms_cube(c.lightness, c.a, c.b, MI1_01, MI1_02);
    let mc: i64 = lms_cube(c.lightness, c.a, c.b, MI1_11, MI1_12);
    let sc: i64 = lms_cube(c.lightness, c.a, c.b, MI1_21, MI1_22);
    LinSrgb {
        red: dot3(MI2_00, MI2_01, MI2_02, lc, mc, sc),
        green: dot3(MI2_10, MI2_11, MI2_12, lc, mc, sc),
        blue: dot3(MI2_20, MI2_21, MI2_22, lc, mc, sc),
    }
}

} // verus!
