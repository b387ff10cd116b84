//! Signed fixed-point scalars: an `i64` holds the real value times 2^32.
//!
//! Products and quotients are computed on magnitudes in 128-bit integers,
//! truncated toward zero, and saturated into `[-CAP, CAP]`; a quotient with
//! divisor zero saturates to `CAP` (or `-CAP` for a negative dividend).
//! Every operation is total and is pinned down exactly by its spec mirror.

use vstd::prelude::*;

verus! {

/// The fixed-point unit: 2^32.
pub const ONE: i64 = 4294967296;

/// Saturation bound of every fixed-point operation: 2^56.
pub const CAP: i64 = 72057594037927936;

pub open spec fn sp_abs(x: int) -> int {
    if x < 0 {
        -x
    } else {
        x
    }
}

pub open spec fn sp_sat(x: int) -> int {
    if x > CAP {
        CAP as int
    } else if x < -CAP {
        -(CAP as int)
    } else {
        x
    }
}

/// The fixed-point product: |a|*|b| / 2^32 truncated, saturated, with the
/// sign of a*b.
pub open spec fn sp_mul(a: int, b: int) -> int {
    let m = (sp_abs(a) * sp_abs(b)) / (ONE as int);
    let m2 = if m > CAP {
        CAP as int
    } else {
        m
    };
    if (a < 0) == (b < 0) {
        m2
    } else {
        -m2
    }
}

/// The fixed-point quotient: |a|*2^32 / |b| truncated, saturated, with the
/// sign of a*b; division by zero saturates.
pub open spec fn sp_div(a: int, b: int) -> int {
    if b == 0 {
        if a >= 0 {
            CAP as int
        } else {
            -(CAP as int)
        }
    } else {
        let m = (sp_abs(a) * (ONE as int)) / sp_abs(b);
        let m2 = if m > CAP {
            CAP as int
        } else {
            m
        };
        if (a < 0) == (b < 0) {
            m2
        } else {
            -m2
        }
    }
}

pub open spec fn sp_add(a: int, b: int) -> int {
    sp_sat(a + b)
}

pub open spec fn sp_sub(a: int, b: int) -> int {
    sp_sat(a - b)
}

pub open spec fn sp_neg(a: int) -> int {
    sp_sat(-a)
}

pub open spec fn sp_min(a: int, b: int) -> int {
    if a <= b {
        a
    } else {
        b
    }
}

pub open spec fn sp_max(a: int, b: int) -> int {
    if a >= b {
        a
    } else {
        b
    }
}

pub proof fn lemma_mul_zero(x: int)
    ensures
        sp_mul(0, x) == 0,
        sp_mul(x, 0) == 0,
{
    vstd::arithmetic::div_mod::lemma_div_of0(ONE as int);
    assert(sp_abs(0) * sp_abs(x) == 0) by (nonlinear_arith);
    assert(sp_abs(x) * sp_abs(0) == 0) by (nonlinear_arith);
}

pub proof fn lemma_div_zero(x: int)
    requires
        x != 0,
    ensures
        sp_div(0, x) == 0,
{
    vstd::arithmetic::div_mod::lemma_div_of0(sp_abs(x));
    assert(sp_abs(0) * (ONE as int) == 0) by (nonlinear_arith);
}

/// Magnitude of an `i64`, widened so that `i64::MIN` needs no special case.
pub(crate) fn abs_u128(a: i64) -> (r: u128)
    ensures
        r == sp_abs(a as int),
{
    if a >= 0 {
        a as u128
    } else {
        (-(a as i128)) as u128
    }
}

pub(crate) fn sat_u128(m: u128, neg: bool) -> (r: i64)
    ensures
        r as int == if neg {
            -(if m > CAP { CAP as int } else { m as int })
        } else {
            (if m > CAP { CAP as int } else { m as int })
        },
{
    let c: u128 = if m > 72057594037927936u128 {
        72057594037927936u128
    } else {
        m
    };
    let ci: i64 = c as i64;
    if neg {
        -ci
    } else {
        ci
    }
}

pub fn fmul(a: i64, b: i64) -> (r: i64)
    ensures
        r as int == sp_mul(a as int, b as int),
        -CAP <= r as int <= CAP,
{
    let neg: bool = (a < 0) != (b < 0);
    let aa: u128 = abs_u128(a);
    let bb: u128 = abs_u128(b);
    proof {
        assert(aa <= 0x8000_0000_0000_0000u128);
        assert(bb <= 0x8000_0000_0000_0000u128);
        assert(aa * bb <= 0x8000_0000_0000_0000u128 * 0x8000_0000_0000_0000u128) by (nonlinear_arith)
            requires
                aa <= 0x8000_0000_0000_0000u128,
                bb <= 0x8000_0000_0000_0000u128,
        ;
    }
    let p: u128 = aa * bb;
    let q: u128 = p / 4294967296u128;
    sat_u128(q, neg)
}

pub fn fdiv(a: i64, b: i64) -> (r: i64)
    ensures
        r as int == sp_div(a as int, b as int),
        -CAP <= r as int <= CAP,
{
    if b == 0 {
        if a >= 0 {
            CAP
        } else {
            -CAP
        }
    } else {
        let neg: bool = (a < 0) != (b < 0);
        let aa: u128 = abs_u128(a);
        let bb: u128 = abs_u128(b);
        let q: u128 = (aa * 4294967296u128) / bb;
        sat_u128(q, neg)
    }
}

pub fn fadd(a: i64, b: i64) -> (r: i64)
    ensures
        r as int == sp_add(a as int, b as int),
        -CAP <= r as int <= CAP,
{
    let s: i128 = a as i128 + b as i128;
    if s > 72057594037927936i128 {
        CAP
    } else if s < -72057594037927936i128 {
        -CAP
    } else {
        s as i64
    }
}

pub fn fsub(a: i64, b: i64) -> (r: i64)
    ensures
        r as int == sp_sub(a as int, b as int),
        -CAP <= r as int <= CAP,
{
    let s: i128 = a as i128 - b as i128;
    if s > 72057594037927936i128 {
        CAP
    } else if s < -72057594037927936i128 {
        -CAP
    } else {
        s as i64
    }
}

pub fn fneg(a: i64) -> (r: i64)
    ensures
        r as int == sp_neg(a as int),
        -CAP <= r as int <= CAP,
{
    let s: i128 = -(a as i128);
    if s > 72057594037927936i128 {
        CAP
    } else if s < -72057594037927936i128 {
        -CAP
    } else {
        s as i64
    }
}

/// Clamps a raw value into the fixed-point range [-CAP, CAP].
pub fn fsat(a: i64) -> (r: i64)
    ensures
        r as int == sp_sat(a as int),
        -CAP <= r as int <= CAP,
{
    if a > CAP {
        CAP
    } else if a < -CAP {
        -CAP
    } else {
        a
    }
}

pub fn fmin(a: i64, b: i64) -> (r: i64)
    ensures
        r as int == sp_min(a as int, b as int),
{
    if a <= b {
        a
    } else {
        b
    }
}

pub fn fmax(a: i64, b: i64) -> (r: i64)
    ensures
        r as int == sp_max(a as int, b as int),
{
    if a >= b {
        a
    } else {
        b
    }
}

} // verus!
