//! Fixed-point sine, cosine and two-argument arctangent.
//!
//! Angles are radians at scale 2^32. The sine folds its argument into
//! [-pi/2, pi/2] and evaluates an odd polynomial; the arctangent halves its
//! argument twice through t / (1 + sqrt(1 + t^2)) and evaluates an odd
//! polynomial on [0, tan(pi/8)/2). Out-of-range angles are clamped into
//! [-4*pi, 4*pi]; the conversions only pass angles within [-2*pi, 2*pi].

use vstd::prelude::*;
use crate::fixed::{ONE, sp_mul, sp_div, sp_add, sp_sub, sp_neg, fmul, fdiv, fadd, fsub, fneg};
use crate::root::{sp_sqrt, fsqrt};

verus! {

/// pi at scale 2^32, rounded to nearest.
pub const PI_FX: i64 = 13493037705;

/// 2*pi at scale 2^32, rounded to nearest.
pub const TWO_PI_FX: i64 = 26986075409;

/// pi/2 at scale 2^32, rounded to nearest.
pub const HALF_PI_FX: i64 = 6746518852;

/// 4*pi at scale 2^32, rounded to nearest.
pub const FOUR_PI_FX: i64 = 53972150818;

pub const SIN_C1: i64 = 715827883;  // 1/6
pub const SIN_C2: i64 = 35791394;  // 1/120
pub const SIN_C3: i64 = 852176;  // 1/5040
pub const SIN_C4: i64 = 11836;  // 1/362880
pub const SIN_C5: i64 = 108;  // 1/39916800

pub const ATAN_C1: i64 = 1431655765;  // 1/3
pub const ATAN_C2: i64 = 858993459;  // 1/5
pub const ATAN_C3: i64 = 613566757;  // 1/7
pub const ATAN_C4: i64 = 477218588;  // 1/9

pub const FOUR_FX: i64 = 17179869184;  // 4

pub open spec fn sp_clamp(x: int, lo: int, hi: int) -> int {
    if x < lo {
        lo
    } else if x > hi {
        hi
    } else {
        x
    }
}

/// Folds an angle clamped into [-4*pi, 4*pi] first into [-pi, pi] and then,
/// by the mirror symmetry of the sine, into [-pi/2, pi/2].
pub open spec fn sp_sin_fold(x0: int) -> int {
    let x1 = sp_clamp(x0, -(FOUR_PI_FX as int), FOUR_PI_FX as int);
    let x2 = if x1 > PI_FX {
        sp_sub(x1, TWO_PI_FX as int)
    } else {
        x1
    };
    let x3 = if x2 > PI_FX {
        sp_sub(x2, TWO_PI_FX as int)
    } else {
        x2
    };
    let x4 = if x3 < -(PI_FX as int) {
        sp_add(x3, TWO_PI_FX as int)
    } else {
        x3
    };
    let x5 = if x4 < -(PI_FX as int) {
        sp_add(x4, TWO_PI_FX as int)
    } else {
        x4
    };
    if x5 > HALF_PI_FX {
        sp_sub(PI_FX as int, x5)
    } else if x5 < -(HALF_PI_FX as int) {
        sp_sub(-(PI_FX as int), x5)
    } else {
        x5
    }
}

/// The odd sine polynomial on the folded argument:
/// x * (1 - y*(1/6 - y*(1/120 - y*(1/5040 - y*(1/362880 - y/39916800)))))
/// with y = x^2, clamped into [-1, 1].
pub open spec fn sp_sin(x0: int) -> int {
    let x = sp_sin_fold(x0);
    let y = sp_mul(x, x);
    let p4 = sp_sub(SIN_C4 as int, sp_mul(y, SIN_C5 as int));
    let p3 = sp_sub(SIN_C3 as int, sp_mul(y, p4));
    let p2 = sp_sub(SIN_C2 as int, sp_mul(y, p3));
    let p1 = sp_sub(SIN_C1 as int, sp_mul(y, p2));
    let p0 = sp_sub(ONE as int, sp_mul(y, p1));
    sp_clamp(sp_mul(x, p0), -(ONE as int), ONE as int)
}

/// cos x == sin(pi/2 - x).
pub open spec fn sp_cos(x: int) -> int {
    sp_sin(sp_sub(HALF_PI_FX as int, x))
}

pub fn sin_fx(x0: i64) -> (r: i64)
    ensures
        r as int == sp_sin(x0 as int),
        -ONE <= r as int <= ONE,
{
    let mut x: i64 = if x0 < -FOUR_PI_FX {
        -FOUR_PI_FX
    } else if x0 > FOUR_PI_FX {
        FOUR_PI_FX
    } else {
        x0
    };
    if x > PI_FX {
        x = fsub(x, TWO_PI_FX);
    }
    if x > PI_FX {
        x = fsub(x, TWO_PI_FX);
    }
    if x < -PI_FX {
        x = fadd(x, TWO_PI_FX);
    }
    if x < -PI_FX {
        x = fadd(x, TWO_PI_FX);
    }
    if x > HALF_PI_FX {
        x = fsub(PI_FX, x);
    } else if x < -HALF_PI_FX {
        x = fsub(-PI_FX, x);
    }
    let y: i64 = fmul(x, x);
    let p4: i64 = fsub(SIN_C4, fmul(y, SIN_C5));
    let p3: i64 = fsub(SIN_C3, fmul(y, p4));
    let p2: i64 = fsub(SIN_C2, fmul(y, p3));
    let p1: i64 = fsub(SIN_C1, fmul(y, p2));
    let p0: i64 = fsub(ONE, fmul(y, p1));
    let r: i64 = fmul(x, p0);
    if r < -ONE {
        -ONE
    } else if r > ONE {
        ONE
    } else {
        r
    }
}

pub fn cos_fx(x: i64) -> (r: i64)
    ensures
        r as int == sp_cos(x as int),
        -ONE <= r as int <= ONE,
{
    sin_fx(fsub(HALF_PI_FX, x))
}

/// The odd arctangent polynomial:
/// t * (1 - y*(1/3 - y*(1/5 - y*(1/7 - y/9)))) with y = t^2.
pub open spec fn sp_atan_poly(t: int) -> int {
    let y = sp_mul(t, t);
    let p3 = sp_sub(ATAN_C3 as int, sp_mul(y, ATAN_C4 as int));
    let p2 = sp_sub(ATAN_C2 as int, sp_mul(y, p3));
    let p1 = sp_sub(ATAN_C1 as int, sp_mul(y, p2));
    let p0 = sp_sub(ONE as int, sp_mul(y, p1));
    sp_mul(t, p0)
}

fn atan_poly(t: i64) -> (r: i64)
    ensures
        r as int == sp_atan_poly(t as int),
{
    let y: i64 = fmul(t, t);
    let p3: i64 = fsub(ATAN_C3, fmul(y, ATAN_C4));
    let p2: i64 = fsub(ATAN_C2, fmul(y, p3));
    let p1: i64 = fsub(ATAN_C1, fmul(y, p2));
    let p0: i64 = fsub(ONE, fmul(y, p1));
    fmul(t, p0)
}

/// Halves an arctangent argument: t / (1 + sqrt(1 + t^2)).
pub open spec fn sp_atan_halve(t: int) -> int {
    sp_div(t, sp_add(ONE as int, sp_sqrt(sp_add(ONE as int, sp_mul(t, t)))))
}

fn atan_halve(t: i64) -> (r: i64)
    ensures
        r as int == sp_atan_halve(t as int),
{
    fdiv(t, fadd(ONE, fsqrt(fadd(ONE, fmul(t, t)))))
}

/// The angle of the point (x, y), in (-pi, pi] at scale 2^32; the origin
/// maps to 0. The octant is found from |y| <= |x|, the ratio of the smaller
/// magnitude to the larger is halved twice, and the polynomial result is
/// unfolded through the quadrant identities.
pub open spec fn sp_atan2(y: int, x: int) -> int {
    if x == 0 && y == 0 {
        0
    } else {
        let ax = if x < 0 {
            sp_neg(x)
        } else {
            x
        };
        let ay = if y < 0 {
            sp_neg(y)
        } else {
            y
        };
        let t = if ay <= ax {
            sp_div(ay, ax)
        } else {
            sp_div(ax, ay)
        };
        let v = sp_atan_halve(sp_atan_halve(t));
        let a0 = sp_mul(FOUR_FX as int, sp_atan_poly(v));
        let a1 = if ay <= ax {
            a0
        } else {
            sp_sub(HALF_PI_FX as int, a0)
        };
        let a2 = if x < 0 {
            sp_sub(PI_FX as int, a1)
        } else {
            a1
        };
        if y < 0 {
            sp_neg(a2)
        } else {
            a2
        }
    }
}

pub fn atan2_fx(y: i64, x: i64) -> (r: i64)
    ensures
        r as int == sp_atan2(y as int, x as int),
{
    if x == 0 && y == 0 {
        return 0;
    }
    let ax: i64 = if x < 0 {
        fneg(x)
    } else {
        x
    };
    let ay: i64 = if y < 0 {
        fneg(y)
    } else {
        y
    };
    let t: i64 = if ay <= ax {
        fdiv(ay, ax)
    } else {
        fdiv(ax, ay)
    };
    let v: i64 = atan_halve(atan_halve(t));
    let a0: i64 = fmul(FOUR_FX, atan_poly(v));
    let a1: i64 = if ay <= ax {
        a0
    } else {
        fsub(HALF_PI_FX, a0)
    };
    let a2: i64 = if x < 0 {
        fsub(PI_FX, a1)
    } else {
        a1
    };
    if y < 0 {
        fneg(a2)
    } else {
        a2
    }
}

} // verus!
