//! The sRGB gamut boundary in Oklab, searched per hue: the toe remapping of
//! lightness, the maximum in-gamut saturation for a hue direction, the cusp
//! (the most saturated in-gamut color of that hue), its triangle
//! reparameterization, the smoothed mid boundary, the intersection of a
//! line with the gamut boundary, and the three reference chromas that shape
//! the OkHSL saturation curve.
//!
//! A hue direction is a pair (a, b) with a^2 + b^2 == 1 in real terms,
//! held at scale 2^32 like every other value.

use vstd::prelude::*;
use crate::fixed::{ONE, CAP, sp_mul, sp_div, sp_add, sp_sub, sp_neg, sp_min, sp_max, fmul, fdiv,
    fadd, fsub, fneg, fmin, fmax};
use crate::root::{sp_sqrt, sp_cbrt, fsqrt, fcbrt};
use crate::oklab::{sp_dot3, dot3, MI1_01, MI1_02, MI1_11, MI1_12, MI1_21,
    MI1_22, MI2_00, MI2_01, MI2_02, MI2_10, MI2_11, MI2_12, MI2_20, MI2_21, MI2_22};
use crate::color::OkLab;

verus! {

/// A point of the gamut boundary in (lightness, chroma) coordinates; the
/// cusp is the most saturated in-gamut color at a given hue.
#[derive(Clone, Copy, Debug, PartialEq, Eq, Structural)]
pub struct LC {
    pub lightness: i64,
    pub chroma: i64,
}

/// The cusp reparameterized as the two slopes of the gamut triangle:
/// s = chroma/lightness and t = chroma/(1 - lightness). The largest chroma
/// inside the triangle at lightness l is then min(s*l, t*(1-l)).
#[derive(Clone, Copy, Debug, PartialEq, Eq, Structural)]
pub struct ST {
    pub s: i64,
    pub t: i64,
}

/// The three reference chromas at a given lightness and hue that shape the
/// OkHSL saturation curve: a hue-independent soft minimum, a smoothed mid
/// boundary, and the exact gamut intersection.
#[derive(Clone, Copy, Debug, PartialEq, Eq, Structural)]
pub struct Cs {
    pub c_0: i64,
    pub c_mid: i64,
    pub c_max: i64,
}

pub const TOE_K1: i64 = 884763263;  // 0.206
pub const TOE_K2: i64 = 128849019;  // 0.03
pub const TOE_K3: i64 = 5028864620;  // 1.206/1.03

pub const HALF_FX: i64 = 2147483648;  // 1/2
pub const THREE_FX: i64 = 12884901888;  // 3
pub const SIX_FX: i64 = 25769803776;  // 6

pub const SAT_R_A: i64 = 8081854048;  // 1.88170328
pub const SAT_R_B: i64 = 3476195905;  // 0.80936493
pub const SAT_G_A: i64 = 7792964927;  // 1.81444104
pub const SAT_G_B: i64 = 5130135541;  // 1.19445276

pub const K0_R: i64 = 5114716651;  // 1.19086277
pub const K1_R: i64 = 7583912720;  // 1.76576728
pub const K2_R: i64 = 2562490919;  // 0.59662641
pub const K3_R: i64 = 3243353015;  // 0.75515197
pub const K4_R: i64 = 2438306406;  // 0.56771245
pub const K0_G: i64 = 3176408133;  // 0.73956515
pub const K1_G: i64 = -1973726623;  // -0.45954404
pub const K2_G: i64 = 355856380;  // 0.08285427
pub const K3_G: i64 = 538634855;  // 0.12541070
pub const K4_G: i64 = 622907869;  // 0.14503204
pub const K0_B: i64 = 5829715963;  // 1.35733652
pub const K1_B: i64 = -39333268;  // -0.00915799
pub const K2_B: i64 = -4944804867;  // -1.15130210
pub const K3_B: i64 = -2171518543;  // -0.50559606
pub const K4_B: i64 = 29728346;  // 0.00692167

pub const MID_S_0: i64 = 494651083;  // 0.11516993
pub const MID_S_1: i64 = 31988013189;  // 7.44778970
pub const MID_S_2: i64 = 17862822242;  // 4.15901240
pub const MID_S_3: i64 = -9429916250;  // -2.19557347
pub const MID_S_4: i64 = 7524714026;  // 1.75198401
pub const MID_S_5: i64 = -9178557627;  // -2.13704948
pub const MID_S_6: i64 = -43048502004;  // -10.02301043
pub const MID_S_7: i64 = -18249082437;  // -4.24894561
pub const MID_S_8: i64 = 23140030476;  // 5.38770819
pub const MID_S_9: i64 = 20181665335;  // 4.69891013
pub const MID_T_0: i64 = 482738948;  // 0.11239642
pub const MID_T_1: i64 = 6928654986;  // 1.61320320
pub const MID_T_2: i64 = -2925919799;  // -0.68124379
pub const MID_T_3: i64 = 1733904583;  // 0.40370612
pub const MID_T_4: i64 = 3871832401;  // 0.90148123
pub const MID_T_5: i64 = -1163418293;  // -0.27087943
pub const MID_T_6: i64 = 2629550348;  // 0.61223990
pub const MID_T_7: i64 = 12851186;  // 0.00299215
pub const MID_T_8: i64 = -1949896598;  // -0.45399568
pub const MID_T_9: i64 = -629722607;  // -0.14661872

/// The toe remapping of Oklab lightness toward perceptually even steps:
/// 0.5 * (k3*x - k1 + sqrt((k3*x - k1)^2 + 4*k2*k3*x)); exactly zero at
/// zero.
pub open spec fn sp_toe(x: int) -> int {
    if x == 0 {
        0
    } else {
        let y = sp_sub(sp_mul(TOE_K3 as int, x), TOE_K1 as int);
        let d = sp_add(sp_mul(y, y), sp_mul(crate::trig::FOUR_FX as int, sp_mul(sp_mul(
            TOE_K2 as int, TOE_K3 as int), x)));
        sp_mul(HALF_FX as int, sp_add(y, sp_sqrt(d)))
    }
}

/// The closed-form inverse of the toe: (x^2 + k1*x) / (k3*(x + k2)).
pub open spec fn sp_inverse_toe(x: int) -> int {
    sp_div(sp_add(sp_mul(x, x), sp_mul(TOE_K1 as int, x)), sp_mul(TOE_K3 as int, sp_add(x,
        TOE_K2 as int)))
}

pub fn toe(x: i64) -> (r: i64)
    ensures
        r as int == sp_toe(x as int),
        x == 0 ==> r == 0,
{
    if x == 0 {
        0
    } else {
        let y: i64 = fsub(fmul(TOE_K3, x), TOE_K1);
        let d: i64 = fadd(fmul(y, y), fmul(crate::trig::FOUR_FX, fmul(fmul(TOE_K2, TOE_K3), x)));
        fmul(HALF_FX, fadd(y, fsqrt(d)))
    }
}

pub fn inverse_toe(x: i64) -> (r: i64)
    ensures
        r as int == sp_inverse_toe(x as int),
{
    fdiv(fadd(fmul(x, x), fmul(TOE_K1, x)), fmul(TOE_K3, fadd(x, TOE_K2)))
}

/// The quartic polynomial estimate of the maximum saturation for one RGB
/// channel: k0 + k1*a + k2*b + k3*a^2 + k4*a*b.
pub open spec fn sp_sat_poly(k0: int, k1: int, k2: int, k3: int, k4: int, a: int, b: int) -> int {
    sp_add(sp_add(k0, sp_mul(k1, a)), sp_add(sp_mul(k2, b), sp_add(sp_mul(k3, sp_mul(a, a)),
        sp_mul(k4, sp_mul(a, b)))))
}

/// One Halley refinement of a saturation estimate s for the channel with
/// matrix row (wl, wm, ws): the root of the cubed LMS reconstruction.
pub open spec fn sp_sat_halley(s: int, a: int, b: int, wl: int, wm: int, ws: int) -> int {
    let k_l = sp_add(sp_mul(MI1_01 as int, a), sp_mul(MI1_02 as int, b));
    let k_m = sp_add(sp_mul(MI1_11 as int, a), sp_mul(MI1_12 as int, b));
    let k_s = sp_add(sp_mul(MI1_21 as int, a), sp_mul(MI1_22 as int, b));
    let l_ = sp_add(ONE as int, sp_mul(s, k_l));
    let m_ = sp_add(ONE as int, sp_mul(s, k_m));
    let s_ = sp_add(ONE as int, sp_mul(s, k_s));
    let l = sp_mul(sp_mul(l_, l_), l_);
    let m = sp_mul(sp_mul(m_, m_), m_);
    let sc = sp_mul(sp_mul(s_, s_), s_);
    let l_ds = sp_mul(THREE_FX as int, sp_mul(k_l, sp_mul(l_, l_)));
    let m_ds = sp_mul(THREE_FX as int, sp_mul(k_m, sp_mul(m_, m_)));
    let s_ds = sp_mul(THREE_FX as int, sp_mul(k_s, sp_mul(s_, s_)));
    let l_ds2 = sp_mul(SIX_FX as int, sp_mul(sp_mul(k_l, k_l), l_));
    let m_ds2 = sp_mul(SIX_FX as int, sp_mul(sp_mul(k_m, k_m), m_));
    let s_ds2 = sp_mul(SIX_FX as int, sp_mul(sp_mul(k_s, k_s), s_));
    let f = sp_dot3(wl, wm, ws, l, m, sc);
    let f1 = sp_dot3(wl, wm, ws, l_ds, m_ds, s_ds);
    let f2 = sp_dot3(wl, wm, ws, l_ds2, m_ds2, s_ds2);
    sp_sub(s, sp_div(sp_mul(f, f1), sp_sub(sp_mul(f1, f1), sp_mul(HALF_FX as int, sp_mul(f,
        f2)))))
}

/// Which channel limits the gamut first for the hue direction (a, b), the
/// polynomial estimate for that channel, and the Halley step: the maximum
/// saturation S = C/L on the sRGB gamut boundary.
pub open spec fn sp_max_saturation(a: int, b: int) -> int {
    if (ONE as int) < sp_sub(sp_neg(sp_mul(SAT_R_A as int, a)), sp_mul(SAT_R_B as int, b)) {
        sp_sat_halley(sp_sat_poly(K0_R as int, K1_R as int, K2_R as int, K3_R as int, K4_R as int,
            a, b), a, b, MI2_00 as int, MI2_01 as int, MI2_02 as int)
    } else if (ONE as int) < sp_sub(sp_mul(SAT_G_A as int, a), sp_mul(SAT_G_B as int, b)) {
        sp_sat_halley(sp_sat_poly(K0_G as int, K1_G as int, K2_G as int, K3_G as int, K4_G as int,
            a, b), a, b, MI2_10 as int, MI2_11 as int, MI2_12 as int)
    } else {
        sp_sat_halley(sp_sat_poly(K0_B as int, K1_B as int, K2_B as int, K3_B as int, K4_B as int,
            a, b), a, b, MI2_20 as int, MI2_21 as int, MI2_22 as int)
    }
}

fn sat_halley(s: i64, a: i64, b: i64, wl: i64, wm: i64, ws: i64) -> (r: i64)
    ensures
        r as int == sp_sat_halley(s as int, a as int, b as int, wl as int, wm as int, ws as int),
        -CAP <= r as int <= CAP,
{
    let k_l: i64 = fadd(fmul(MI1_01, a), fmul(MI1_02, b));
    let k_m: i64 = fadd(fmul(MI1_11, a), fmul(MI1_12, b));
    let k_s: i64 = fadd(fmul(MI1_21, a), fmul(MI1_22, b));
    let l_: i64 = fadd(ONE, fmul(s, k_l));
    let m_: i64 = fadd(ONE, fmul(s, k_m));
    let s_: i64 = fadd(ONE, fmul(s, k_s));
    let l: i64 = fmul(fmul(l_, l_), l_);
    let m: i64 = fmul(fmul(m_, m_), m_);
    let sc: i64 = fmul(fmul(s_, s_), s_);
    let l_ds: i64 = fmul(THREE_FX, fmul(k_l, fmul(l_, l_)));
    let m_ds: i64 = fmul(THREE_FX, fmul(k_m, fmul(m_, m_)));
    let s_ds: i64 = fmul(THREE_FX, fmul(k_s, fmul(s_, s_)));
    let l_ds2: i64 = fmul(SIX_FX, fmul(fmul(k_l, k_l), l_));
    let m_ds2: i64 = fmul(SIX_FX, fmul(fmul(k_m, k_m), m_));
    let s_ds2: i64 = fmul(SIX_FX, fmul(fmul(k_s, k_s), s_));
    let f: i64 = dot3(wl, wm, ws, l, m, sc);
    let f1: i64 = dot3(wl, wm, ws, l_ds, m_ds, s_ds);
    let f2: i64 = dot3(wl, wm, ws, l_ds2, m_ds2, s_ds2);
    fsub(s, fdiv(fmul(f, f1), fsub(fmul(f1, f1), fmul(HALF_FX, fmul(f, f2)))))
}

/// The maximum saturation S = C/L that fits in the sRGB gamut for the unit
/// hue direction (a, b): a per-channel polynomial estimate refined by one
/// Halley step.
pub fn compute_max_saturation(a: i64, b: i64) -> (r: i64)
    ensures
        r as int == sp_max_saturation(a as int, b as int),
        -CAP <= r as int <= CAP,
{
    if ONE < fsub(fneg(fmul(SAT_R_A, a)), fmul(SAT_R_B, b)) {
        let s: i64 = fadd(fadd(K0_R, fmul(K1_R, a)), fadd(fmul(K2_R, b), fadd(fmul(K3_R, fmul(a,
            a)), fmul(K4_R, fmul(a, b)))));
        sat_halley(s, a, b, MI2_00, MI2_01, MI2_02)
    } else if ONE < fsub(fmul(SAT_G_A, a), fmul(SAT_G_B, b)) {
        let s: i64 = fadd(fadd(K0_G, fmul(K1_G, a)), fadd(fmul(K2_G, b), fadd(fmul(K3_G, fmul(a,
            a)), fmul(K4_G, fmul(a, b)))));
        sat_halley(s, a, b, MI2_10, MI2_11, MI2_12)
    } else {
        let s: i64 = fadd(fadd(K0_B, fmul(K1_B, a)), fadd(fmul(K2_B, b), fadd(fmul(K3_B, fmul(a,
            a)), fmul(K4_B, fmul(a, b)))));
        sat_halley(s, a, b, MI2_20, MI2_21, MI2_22)
    }
}

/// The lightness of the cusp: the max-saturation color at lightness 1 is
/// reconstructed in linear RGB and lightness is rescaled so the largest
/// channel becomes exactly 1.
pub open spec fn sp_cusp_l(a: int, b: int) -> int {
    let s_cusp = sp_max_saturation(a, b);
    let sa = sp_mul(s_cusp, a);
    let sb = sp_mul(s_cusp, b);
    let max_ch = sp_max(crate::oklab::sp_linear_r(ONE as int, sa, sb), sp_max(
        crate::oklab::sp_linear_g(ONE as int, sa, sb), crate::oklab::sp_linear_b(ONE as int, sa,
        sb)));
    sp_cbrt(sp_div(ONE as int, max_ch))
}

/// The chroma of the cusp: its lightness times the maximum saturation.
pub open spec fn sp_cusp_c(a: int, b: int) -> int {
    sp_mul(sp_cusp_l(a, b), sp_max_saturation(a, b))
}

/// Finds the cusp of the gamut triangle for the unit hue direction (a, b).
pub fn find_cusp(a: i64, b: i64) -> (r: LC)
    ensures
        r.lightness as int == sp_cusp_l(a as int, b as int),
        r.chroma as int == sp_cusp_c(a as int, b as int),
{
    let s_cusp: i64 = compute_max_saturation(a, b);
    let rgb = crate::oklab::oklab_to_linear(OkLab {
        lightness: ONE,
        a: fmul(s_cusp, a),
        b: fmul(s_cusp, b),
    });
    let max_ch: i64 = fmax(rgb.red, fmax(rgb.green, rgb.blue));
    let lightness: i64 = fcbrt(fdiv(ONE, max_ch));
    LC { lightness, chroma: fmul(lightness, s_cusp) }
}

pub open spec fn sp_st_s(cusp_l: int, cusp_c: int) -> int {
    sp_div(cusp_c, cusp_l)
}

pub open spec fn sp_st_t(cusp_l: int, cusp_c: int) -> int {
    sp_div(cusp_c, sp_sub(ONE as int, cusp_l))
}

impl ST {
    /// The slopes of the gamut triangle through the cusp.
    pub fn from_cusp(cusp: LC) -> (r: ST)
        ensures
            r.s as int == sp_st_s(cusp.lightness as int, cusp.chroma as int),
            r.t as int == sp_st_t(cusp.lightness as int, cusp.chroma as int),
    {
        ST {
            s: fdiv(cusp.chroma, cusp.lightness),
            t: fdiv(cusp.chroma, fsub(ONE, cusp.lightness)),
        }
    }
}

/// The smoothed "mid" gamut slope s: a fitted rational polynomial in the
/// hue direction, below the true triangle slope for every hue.
pub open spec fn sp_mid_s(a: int, b: int) -> int {
    sp_add(MID_S_0 as int, sp_div(ONE as int, sp_add(sp_add(MID_S_1 as int, sp_mul(
        MID_S_2 as int, b)), sp_mul(a, sp_add(sp_add(MID_S_3 as int, sp_mul(MID_S_4 as int, b)),
        sp_mul(a, sp_add(sp_add(MID_S_5 as int, sp_mul(MID_S_6 as int, b)), sp_mul(a, sp_add(
        sp_add(MID_S_7 as int, sp_mul(MID_S_8 as int, b)), sp_mul(MID_S_9 as int, a))))))))))
}

/// The smoothed "mid" gamut slope t, fitted like s.
pub open spec fn sp_mid_t(a: int, b: int) -> int {
    sp_add(MID_T_0 as int, sp_div(ONE as int, sp_add(sp_add(MID_T_1 as int, sp_mul(
        MID_T_2 as int, b)), sp_mul(a, sp_add(sp_add(MID_T_3 as int, sp_mul(MID_T_4 as int, b)),
        sp_mul(a, sp_add(sp_add(MID_T_5 as int, sp_mul(MID_T_6 as int, b)), sp_mul(a, sp_add(
        sp_add(MID_T_7 as int, sp_mul(MID_T_8 as int, b)), sp_mul(MID_T_9 as int, a))))))))))
}

impl ST {
    /// A smooth fitted approximation of the cusp location, kept strictly
    /// inside the triangle; it rounds off the kink that the hard triangle
    /// boundary would put into the OkHSL saturation response.
    pub fn mid(a: i64, b: i64) -> (r: ST)
        ensures
            r.s as int == sp_mid_s(a as int, b as int),
            r.t as int == sp_mid_t(a as int, b as int),
    {
        let s: i64 = fadd(MID_S_0, fdiv(ONE, fadd(fadd(MID_S_1, fmul(MID_S_2, b)), fmul(a, fadd(
            fadd(MID_S_3, fmul(MID_S_4, b)), fmul(a, fadd(fadd(MID_S_5, fmul(MID_S_6, b)), fmul(a,
            fadd(fadd(MID_S_7, fmul(MID_S_8, b)), fmul(MID_S_9, a))))))))));
        let t: i64 = fadd(MID_T_0, fdiv(ONE, fadd(fadd(MID_T_1, fmul(MID_T_2, b)), fmul(a, fadd(
            fadd(MID_T_3, fmul(MID_T_4, b)), fmul(a, fadd(fadd(MID_T_5, fmul(MID_T_6, b)), fmul(a,
            fadd(fadd(MID_T_7, fmul(MID_T_8, b)), fmul(MID_T_9, a))))))))));
        ST { s, t }
    }
}

/// Whether one channel's Halley step is usable: the step factor
/// u = x1 / (x1^2 - x*x2/2) must be nonnegative.
pub open spec fn sp_chan_ok(x: int, x1: int, x2: int) -> bool {
    sp_div(x1, sp_sub(sp_mul(x1, x1), sp_mul(HALF_FX as int, sp_mul(x, x2)))) >= 0
}

/// One channel's Halley correction to the intersection parameter: -x*u.
pub open spec fn sp_chan_t(x: int, x1: int, x2: int) -> int {
    let u = sp_div(x1, sp_sub(sp_mul(x1, x1), sp_mul(HALF_FX as int, sp_mul(x, x2))));
    sp_neg(sp_mul(x, u))
}

fn chan_candidate(x: i64, x1: i64, x2: i64) -> (r: (bool, i64))
    ensures
        r.0 == sp_chan_ok(x as int, x1 as int, x2 as int),
        r.0 ==> r.1 as int == sp_chan_t(x as int, x1 as int, x2 as int),
{
    let u: i64 = fdiv(x1, fsub(fmul(x1, x1), fmul(HALF_FX, fmul(x, x2))));
    if u >= 0 {
        (true, fneg(fmul(x, u)))
    } else {
        (false, 0)
    }
}

/// The smallest of the usable channel corrections, or zero when none is
/// usable: the channel that clips first bounds the step.
pub open spec fn sp_min_step(okr: bool, tr: int, okg: bool, tg: int, okb: bool, tb: int) -> int {
    let s1 = if okr {
        tr
    } else {
        0
    };
    let s2 = if okg && (!okr || tg < s1) {
        tg
    } else {
        s1
    };
    if okb && (!(okr || okg) || tb < s2) {
        tb
    } else {
        s2
    }
}

/// The parameter t in [0, 1] at which the line from (l0, 0) to (l1, c1) in
/// (lightness, chroma) space leaves the sRGB gamut for the hue direction
/// (a, b), given the cusp of that hue. On the lower triangle edge the
/// intersection is closed-form; on the upper, curved edge the triangle
/// estimate is refined by one Halley step per RGB channel and advanced by
/// the smallest usable correction.
pub open spec fn sp_fgi(a: int, b: int, l1: int, c1: int, l0: int, cusp_l: int, cusp_c: int)
    -> int {
    if sp_mul(sp_sub(l1, l0), cusp_c) <= sp_mul(sp_sub(cusp_l, l0), c1) {
        sp_div(sp_mul(cusp_c, l0), sp_add(sp_mul(c1, cusp_l), sp_mul(cusp_c, sp_sub(l0, l1))))
    } else {
        let t0 = sp_div(sp_mul(cusp_c, sp_sub(l0, ONE as int)), sp_add(sp_mul(c1, sp_sub(cusp_l,
            ONE as int)), sp_mul(cusp_c, sp_sub(l0, l1))));
        let d_l = sp_sub(l1, l0);
        let k_l = sp_add(sp_mul(MI1_01 as int, a), sp_mul(MI1_02 as int, b));
        let k_m = sp_add(sp_mul(MI1_11 as int, a), sp_mul(MI1_12 as int, b));
        let k_s = sp_add(sp_mul(MI1_21 as int, a), sp_mul(MI1_22 as int, b));
        let l_dt = sp_add(d_l, sp_mul(c1, k_l));
        let m_dt = sp_add(d_l, sp_mul(c1, k_m));
        let s_dt = sp_add(d_l, sp_mul(c1, k_s));
        let ll = sp_add(sp_mul(l0, sp_sub(ONE as int, t0)), sp_mul(t0, l1));
        let cc = sp_mul(t0, c1);
        let l_ = sp_add(ll, sp_mul(cc, k_l));
        let m_ = sp_add(ll, sp_mul(cc, k_m));
        let s_ = sp_add(ll, sp_mul(cc, k_s));
        let l_c = sp_mul(sp_mul(l_, l_), l_);
        let m_c = sp_mul(sp_mul(m_, m_), m_);
        let s_c = sp_mul(sp_mul(s_, s_), s_);
        let ldt = sp_mul(THREE_FX as int, sp_mul(l_dt, sp_mul(l_, l_)));
        let mdt = sp_mul(THREE_FX as int, sp_mul(m_dt, sp_mul(m_, m_)));
        let sdt = sp_mul(THREE_FX as int, sp_mul(s_dt, sp_mul(s_, s_)));
        let ldt2 = sp_mul(SIX_FX as int, sp_mul(sp_mul(l_dt, l_dt), l_));
        let mdt2 = sp_mul(SIX_FX as int, sp_mul(sp_mul(m_dt, m_dt), m_));
        let sdt2 = sp_mul(SIX_FX as int, sp_mul(sp_mul(s_dt, s_dt), s_));
        let xr = sp_sub(sp_dot3(MI2_00 as int, MI2_01 as int, MI2_02 as int, l_c, m_c, s_c),
            ONE as int);
        let xr1 = sp_dot3(MI2_00 as int, MI2_01 as int, MI2_02 as int, ldt, mdt, sdt);
        let xr2 = sp_dot3(MI2_00 as int, MI2_01 as int, MI2_02 as int, ldt2, mdt2, sdt2);
        let xg = sp_sub(sp_dot3(MI2_10 as int, MI2_11 as int, MI2_12 as int, l_c, m_c, s_c),
            ONE as int);
        let xg1 = sp_dot3(MI2_10 as int, MI2_11 as int, MI2_12 as int, ldt, mdt, sdt);
        let xg2 = sp_dot3(MI2_10 as int, MI2_11 as int, MI2_12 as int, ldt2, mdt2, sdt2);
        let xb = sp_sub(sp_dot3(MI2_20 as int, MI2_21 as int, MI2_22 as int, l_c, m_c, s_c),
            ONE as int);
        let xb1 = sp_dot3(MI2_20 as int, MI2_21 as int, MI2_22 as int, ldt, mdt, sdt);
        let xb2 = sp_dot3(MI2_20 as int, MI2_21 as int, MI2_22 as int, ldt2, mdt2, sdt2);
        sp_add(t0, sp_min_step(sp_chan_ok(xr, xr1, xr2), sp_chan_t(xr, xr1, xr2), sp_chan_ok(xg,
            xg1, xg2), sp_chan_t(xg, xg1, xg2), sp_chan_ok(xb, xb1, xb2), sp_chan_t(xb, xb1,
            xb2)))
    }
}

/// Finds the intersection of the line L = l0*(1 - t) + t*l1, C = t*c1 with
/// the gamut boundary of the hue direction (a, b).
pub fn find_gamut_intersection(a: i64, b: i64, l1: i64, c1: i64, l0: i64, cusp: LC) -> (r: i64)
    ensures
        r as int == sp_fgi(a as int, b as int, l1 as int, c1 as int, l0 as int,
            cusp.lightness as int, cusp.chroma as int),
{
    if fmul(fsub(l1, l0), cusp.chroma) <= fmul(fsub(cusp.lightness, l0), c1) {
        fdiv(fmul(cusp.chroma, l0), fadd(fmul(c1, cusp.lightness), fmul(cusp.chroma, fsub(l0,
            l1))))
    } else {
        let t0: i64 = fdiv(fmul(cusp.chroma, fsub(l0, ONE)), fadd(fmul(c1, fsub(cusp.lightness,
            ONE)), fmul(cusp.chroma, fsub(l0, l1))));
        let d_l: i64 = fsub(l1, l0);
        let k_l: i64 = fadd(fmul(MI1_01, a), fmul(MI1_02, b));
        let k_m: i64 = fadd(fmul(MI1_11, a), fmul(MI1_12, b));
        let k_s: i64 = fadd(fmul(MI1_21, a), fmul(MI1_22, b));
        let l_dt: i64 = fadd(d_l, fmul(c1, k_l));
        let m_dt: i64 = fadd(d_l, fmul(c1, k_m));
        let s_dt: i64 = fadd(d_l, fmul(c1, k_s));
        let ll: i64 = fadd(fmul(l0, fsub(ONE, t0)), fmul(t0, l1));
        let cc: i64 = fmul(t0, c1);
        let l_: i64 = fadd(ll, fmul(cc, k_l));
        let m_: i64 = fadd(ll, fmul(cc, k_m));
        let s_: i64 = fadd(ll, fmul(cc, k_s));
        let l_c: i64 = fmul(fmul(l_, l_), l_);
        let m_c: i64 = fmul(fmul(m_, m_), m_);
        let s_c: i64 = fmul(fmul(s_, s_), s_);
        let ldt: i64 = fmul(THREE_FX, fmul(l_dt, fmul(l_, l_)));
        let mdt: i64 = fmul(THREE_FX, fmul(m_dt, fmul(m_, m_)));
        let sdt: i64 = fmul(THREE_FX, fmul(s_dt, fmul(s_, s_)));
        let ldt2: i64 = fmul(SIX_FX, fmul(fmul(l_dt, l_dt), l_));
        let mdt2: i64 = fmul(SIX_FX, fmul(fmul(m_dt, m_dt), m_));
        let sdt2: i64 = fmul(SIX_FX, fmul(fmul(s_dt, s_dt), s_));
        let xr: i64 = fsub(dot3(MI2_00, MI2_01, MI2_02, l_c, m_c, s_c), ONE);
        let xr1: i64 = dot3(MI2_00, MI2_01, MI2_02, ldt, mdt, sdt);
        let xr2: i64 = dot3(MI2_00, MI2_01, MI2_02, ldt2, mdt2, sdt2);
        let xg: i64 = fsub(dot3(MI2_10, MI2_11, MI2_12, l_c, m_c, s_c), ONE);
        let xg1: i64 = dot3(MI2_10, MI2_11, MI2_12, ldt, mdt, sdt);
        let xg2: i64 = dot3(MI2_10, MI2_11, MI2_12, ldt2, mdt2, sdt2);
        let xb: i64 = fsub(dot3(MI2_20, MI2_21, MI2_22, l_c, m_c, s_c), ONE);
        let xb1: i64 = dot3(MI2_20, MI2_21, MI2_22, ldt, mdt, sdt);
        let xb2: i64 = dot3(MI2_20, MI2_21, MI2_22, ldt2, mdt2, sdt2);
        let (okr, tr): (bool, i64) = chan_candidate(xr, xr1, xr2);
        let (okg, tg): (bool, i64) = chan_candidate(xg, xg1, xg2);
        let (okb, tb): (bool, i64) = chan_candidate(xb, xb1, xb2);
        let mut step: i64 = 0;
        if okr {
            step = tr;
        }
        if okg && (!okr || tg < step) {
            step = tg;
        }
        if okb && (!(okr || okg) || tb < step) {
            step = tb;
        }
        fadd(t0, step)
    }
}

/// The hue-independent soft-minimum chroma bound c0, the smoothed mid
/// bound, and the exact bound from the gamut intersection, at Oklab
/// lightness l (untoed) and unit hue direction (a, b).
///
/// The soft minima are computed in the numerically stable form
/// min * (1 + (min/max)^k)^(-1/k), which equals the usual form
/// (ca^-k + cb^-k)^(-1/k) for positive bounds.
pub open spec fn sp_cs_parts(l: int, a: int, b: int) -> (int, int, int) {
    let cusp_l = sp_cusp_l(a, b);
    let cusp_c = sp_cusp_c(a, b);
    let c_max = sp_fgi(a, b, l, ONE as int, l, cusp_l, cusp_c);
    let k = sp_div(c_max, sp_min(sp_mul(l, sp_st_s(cusp_l, cusp_c)), sp_mul(sp_sub(ONE as int, l),
        sp_st_t(cusp_l, cusp_c))));
    let c_a = sp_mul(l, sp_mid_s(a, b));
    let c_b = sp_mul(sp_sub(ONE as int, l), sp_mid_t(a, b));
    let mn = sp_min(c_a, c_b);
    let mx = sp_max(c_a, c_b);
    let rho = sp_div(mn, mx);
    let rho4 = sp_mul(sp_mul(rho, rho), sp_mul(rho, rho));
    let c_mid = sp_mul(CS_SCALE as int, sp_mul(k, sp_div(mn, sp_sqrt(sp_sqrt(sp_add(ONE as int,
        rho4))))));
    let c_a0 = sp_mul(l, CS_CA as int);
    let c_b0 = sp_mul(sp_sub(ONE as int, l), CS_CB as int);
    let mn0 = sp_min(c_a0, c_b0);
    let mx0 = sp_max(c_a0, c_b0);
    let rho0 = sp_div(mn0, mx0);
    let c_0 = sp_div(mn0, sp_sqrt(sp_add(ONE as int, sp_mul(rho0, rho0))));
    (c_0, c_mid, c_max)
}

pub const CS_CA: i64 = 1717986918;  // 0.4
pub const CS_CB: i64 = 3435973837;  // 0.8
pub const CS_SCALE: i64 = 3865470566;  // 0.9

impl Cs {
    /// The three reference chromas for the color with Oklab lightness
    /// `lab.lightness` and unit hue direction (lab.a, lab.b).
    pub fn from_lab(lab: OkLab) -> (r: Cs)
        ensures
            r.c_0 as int == sp_cs_parts(lab.lightness as int, lab.a as int, lab.b as int).0,
            r.c_mid as int == sp_cs_parts(lab.lightness as int, lab.a as int, lab.b as int).1,
            r.c_max as int == sp_cs_parts(lab.lightness as int, lab.a as int, lab.b as int).2,
    {
        let l: i64 = lab.lightness;
        let cusp: LC = find_cusp(lab.a, lab.b);
        let c_max: i64 = find_gamut_intersection(lab.a, lab.b, l, ONE, l, cusp);
        let st_max: ST = ST::from_cusp(cusp);
        let k: i64 = fdiv(c_max, fmin(fmul(l, st_max.s), fmul(fsub(ONE, l), st_max.t)));
        let st_mid: ST = ST::mid(lab.a, lab.b);
        let c_a: i64 = fmul(l, st_mid.s);
        let c_b: i64 = fmul(fsub(ONE, l), st_mid.t);
        let mn: i64 = fmin(c_a, c_b);
        let mx: i64 = fmax(c_a, c_b);
        let rho: i64 = fdiv(mn, mx);
        let rho4: i64 = fmul(fmul(rho, rho), fmul(rho, rho));
        let c_mid: i64 = fmul(CS_SCALE, fmul(k, fdiv(mn, fsqrt(fsqrt(fadd(ONE, rho4))))));
        let c_a0: i64 = fmul(l, CS_CA);
        let c_b0: i64 = fmul(fsub(ONE, l), CS_CB);
        let mn0: i64 = fmin(c_a0, c_b0);
        let mx0: i64 = fmax(c_a0, c_b0);
        let rho0: i64 = fdiv(mn0, mx0);
        let c_0: i64 = fdiv(mn0, fsqrt(fadd(ONE, fmul(rho0, rho0))));
        Cs { c_0, c_mid, c_max }
    }
}

} // verus!
