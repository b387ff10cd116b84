//! Exact integer floor roots (square, cube and fifth), and the fixed-point
//! square and cube roots built on them.
//!
//! Each root is a spec function defined by halving recursion, proved to
//! satisfy the floor characterization `r^k <= n < (r+1)^k`, and each
//! executable search is proved to return exactly that value.

use vstd::prelude::*;
use crate::fixed::{ONE, CAP, sp_abs};

verus! {

pub open spec fn floor_sqrt(n: int) -> int
    decreases n,
{
    if n <= 0 {
        0
    } else {
        let r = 2 * floor_sqrt(n / 4);
        if (r + 1) * (r + 1) <= n {
            r + 1
        } else {
            r
        }
    }
}

pub open spec fn floor_cbrt(n: int) -> int
    decreases n,
{
    if n <= 0 {
        0
    } else {
        let r = 2 * floor_cbrt(n / 8);
        if (r + 1) * (r + 1) * (r + 1) <= n {
            r + 1
        } else {
            r
        }
    }
}

pub open spec fn floor_root5(n: int) -> int
    decreases n,
{
    if n <= 0 {
        0
    } else {
        let r = 2 * floor_root5(n / 32);
        if (r + 1) * (r + 1) * (r + 1) * (r + 1) * (r + 1) <= n {
            r + 1
        } else {
            r
        }
    }
}

pub proof fn lemma_floor_sqrt(n: int)
    requires
        n >= 0,
    ensures
        floor_sqrt(n) >= 0,
        floor_sqrt(n) * floor_sqrt(n) <= n,
        (floor_sqrt(n) + 1) * (floor_sqrt(n) + 1) > n,
    decreases n,
{
    if n <= 0 {
    } else {
        let q = n / 4;
        lemma_floor_sqrt(q);
        let r0 = floor_sqrt(q);
        let r = 2 * r0;
        assert(4 * q <= n < 4 * q + 4);
        assert(r * r == 4 * (r0 * r0) && (r + 2) * (r + 2) == 4 * ((r0 + 1) * (r0 + 1)))
            by (nonlinear_arith)
            requires
                r == 2 * r0,
        ;
        assert(r * r <= n);
        assert((r + 2) * (r + 2) > n);
        if (r + 1) * (r + 1) <= n {
            assert(floor_sqrt(n) == r + 1);
        } else {
            assert(floor_sqrt(n) == r);
        }
    }
}

pub proof fn lemma_floor_sqrt_unique(n: int, r: int)
    requires
        n >= 0,
        r >= 0,
        r * r <= n,
        (r + 1) * (r + 1) > n,
    ensures
        r == floor_sqrt(n),
{
    lemma_floor_sqrt(n);
    let f = floor_sqrt(n);
    if r < f {
        assert((r + 1) * (r + 1) <= f * f) by (nonlinear_arith)
            requires
                0 <= r + 1 <= f,
        ;
    }
    if f < r {
        assert((f + 1) * (f + 1) <= r * r) by (nonlinear_arith)
            requires
                0 <= f + 1 <= r,
        ;
    }
}

pub proof fn lemma_floor_cbrt(n: int)
    requires
        n >= 0,
    ensures
        floor_cbrt(n) >= 0,
        floor_cbrt(n) * floor_cbrt(n) * floor_cbrt(n) <= n,
        (floor_cbrt(n) + 1) * (floor_cbrt(n) + 1) * (floor_cbrt(n) + 1) > n,
    decreases n,
{
    if n <= 0 {
    } else {
        let q = n / 8;
        lemma_floor_cbrt(q);
        let r0 = floor_cbrt(q);
        let r = 2 * r0;
        assert(8 * q <= n < 8 * q + 8);
        assert(r * r * r == 8 * (r0 * r0 * r0) && (r + 2) * (r + 2) * (r + 2) == 8 * ((r0 + 1)
            * (r0 + 1) * (r0 + 1))) by (nonlinear_arith)
            requires
                r == 2 * r0,
        ;
        assert(r * r * r <= n);
        assert((r + 2) * (r + 2) * (r + 2) > n);
        if (r + 1) * (r + 1) * (r + 1) <= n {
            assert(floor_cbrt(n) == r + 1);
        } else {
            assert(floor_cbrt(n) == r);
        }
    }
}

pub proof fn lemma_floor_cbrt_unique(n: int, r: int)
    requires
        n >= 0,
        r >= 0,
        r * r * r <= n,
        (r + 1) * (r + 1) * (r + 1) > n,
    ensures
        r == floor_cbrt(n),
{
    lemma_floor_cbrt(n);
    let f = floor_cbrt(n);
    if r < f {
        assert((r + 1) * (r + 1) * (r + 1) <= f * f * f) by (nonlinear_arith)
            requires
                0 <= r + 1 <= f,
        ;
    }
    if f < r {
        assert((f + 1) * (f + 1) * (f + 1) <= r * r * r) by (nonlinear_arith)
            requires
                0 <= f + 1 <= r,
        ;
    }
}

pub proof fn lemma_floor_root5(n: int)
    requires
        n >= 0,
    ensures
        floor_root5(n) >= 0,
        floor_root5(n) * floor_root5(n) * floor_root5(n) * floor_root5(n) * floor_root5(n) <= n,
        (floor_root5(n) + 1) * (floor_root5(n) + 1) * (floor_root5(n) + 1) * (floor_root5(n) + 1)
            * (floor_root5(n) + 1) > n,
    decreases n,
{
    if n <= 0 {
    } else {
        let q = n / 32;
        lemma_floor_root5(q);
        let r0 = floor_root5(q);
        let r = 2 * r0;
        assert(32 * q <= n < 32 * q + 32);
        assert(r * r * r * r * r == 32 * (r0 * r0 * r0 * r0 * r0) && (r + 2) * (r + 2) * (r + 2)
            * (r + 2) * (r + 2) == 32 * ((r0 + 1) * (r0 + 1) * (r0 + 1) * (r0 + 1) * (r0 + 1)))
            by (nonlinear_arith)
            requires
                r == 2 * r0,
        ;
        assert(r * r * r * r * r <= n);
        assert((r + 2) * (r + 2) * (r + 2) * (r + 2) * (r + 2) > n);
        if (r + 1) * (r + 1) * (r + 1) * (r + 1) * (r + 1) <= n {
            assert(floor_root5(n) == r + 1);
        } else {
            assert(floor_root5(n) == r);
        }
    }
}

pub proof fn lemma_floor_root5_unique(n: int, r: int)
    requires
        n >= 0,
        r >= 0,
        r * r * r * r * r <= n,
        (r + 1) * (r + 1) * (r + 1) * (r + 1) * (r + 1) > n,
    ensures
        r == floor_root5(n),
{
    lemma_floor_root5(n);
    let f = floor_root5(n);
    if r < f {
        assert((r + 1) * (r + 1) * (r + 1) * (r + 1) * (r + 1) <= f * f * f * f * f)
            by (nonlinear_arith)
            requires
                0 <= r + 1 <= f,
        ;
    }
    if f < r {
        assert((f + 1) * (f + 1) * (f + 1) * (f + 1) * (f + 1) <= r * r * r * r * r)
            by (nonlinear_arith)
            requires
                0 <= f + 1 <= r,
        ;
    }
}

pub(crate) fn isqrt_u128(n: u128) -> (r: u128)
    ensures
        r as int == floor_sqrt(n as int),
        r * r <= n,
{
    let mut lo: u128 = 0;
    let mut hi: u128 = 0x1_0000_0000_0000_0000u128;
    proof {
        assert((hi as int) * (hi as int) > n as int) by (nonlinear_arith)
            requires
                hi == 0x1_0000_0000_0000_0000u128,
                n <= u128::MAX,
        ;
    }
    while lo + 1 < hi
        invariant
            lo < hi,
            hi <= 0x1_0000_0000_0000_0000u128,
            (lo as int) * (lo as int) <= n as int,
            (hi as int) * (hi as int) > n as int,
        decreases hi - lo,
    {
        let mid: u128 = lo + (hi - lo) / 2;
        proof {
            assert((mid as int) * (mid as int) < 0x1_0000_0000_0000_0000_0000_0000_0000_0000int)
                by (nonlinear_arith)
                requires
                    mid < 0x1_0000_0000_0000_0000u128,
            ;
        }
        if mid * mid <= n {
            lo = mid;
        } else {
            hi = mid;
        }
    }
    proof {
        lemma_floor_sqrt_unique(n as int, lo as int);
    }
    lo
}

pub(crate) fn icbrt_u128(n: u128) -> (r: u128)
    requires
        n < 0x400_0000_0000_0000_0000_0000_0000_0000u128,
    ensures
        r as int == floor_cbrt(n as int),
        r * r * r <= n,
{
    let mut lo: u128 = 0;
    let mut hi: u128 = 0x200_0000_0000u128;
    proof {
        assert((hi as int) * (hi as int) * (hi as int) > n as int) by (nonlinear_arith)
            requires
                hi == 0x200_0000_0000u128,
                n < 0x400_0000_0000_0000_0000_0000_0000_0000u128,
        ;
    }
    while lo + 1 < hi
        invariant
            lo < hi,
            hi <= 0x200_0000_0000u128,
            (lo as int) * (lo as int) * (lo as int) <= n as int,
            (hi as int) * (hi as int) * (hi as int) > n as int,
        decreases hi - lo,
    {
        let mid: u128 = lo + (hi - lo) / 2;
        proof {
            assert((mid as int) * (mid as int) < 0x4_0000_0000_0000_0000_0000int
                && (mid as int) * (mid as int) * (mid as int)
                < 0x1_0000_0000_0000_0000_0000_0000_0000_0000int) by (nonlinear_arith)
                requires
                    mid < 0x200_0000_0000u128,
            ;
        }
        if mid * mid * mid <= n {
            lo = mid;
        } else {
            hi = mid;
        }
    }
    proof {
        lemma_floor_cbrt_unique(n as int, lo as int);
    }
    lo
}

pub(crate) fn iroot5_u128(n: u128) -> (r: u128)
    requires
        n <= 0x4000_0000_0000_0000_0000_0000_0000_0000u128,
    ensures
        r as int == floor_root5(n as int),
        r * r * r * r * r <= n,
{
    let mut lo: u128 = 0;
    let mut hi: u128 = 0x280_0000u128;
    proof {
        assert((hi as int) * (hi as int) * (hi as int) * (hi as int) * (hi as int) > n as int)
            by (nonlinear_arith)
            requires
                hi == 0x280_0000u128,
                n <= 0x4000_0000_0000_0000_0000_0000_0000_0000u128,
        ;
    }
    while lo + 1 < hi
        invariant
            lo < hi,
            hi <= 0x280_0000u128,
            (lo as int) * (lo as int) * (lo as int) * (lo as int) * (lo as int) <= n as int,
            (hi as int) * (hi as int) * (hi as int) * (hi as int) * (hi as int) > n as int,
        decreases hi - lo,
    {
        let mid: u128 = lo + (hi - lo) / 2;
        proof {
            assert((mid as int) * (mid as int) < 0x10_0000_0000_0000int
                && (mid as int) * (mid as int) * (mid as int) < 0x40_0000_0000_0000_0000_0000int
                && (mid as int) * (mid as int) * (mid as int) * (mid as int)
                < 0x100_0000_0000_0000_0000_0000_0000int
                && (mid as int) * (mid as int) * (mid as int) * (mid as int) * (mid as int)
                < 0x1_0000_0000_0000_0000_0000_0000_0000_0000int) by (nonlinear_arith)
                requires
                    mid < 0x280_0000u128,
            ;
        }
        if mid * mid * mid * mid * mid <= n {
            lo = mid;
        } else {
            hi = mid;
        }
    }
    proof {
        lemma_floor_root5_unique(n as int, lo as int);
    }
    lo
}

/// The fixed-point square root of a nonnegative value: floor(sqrt(x/2^32) * 2^32).
/// A negative argument yields zero.
pub open spec fn sp_sqrt(x: int) -> int {
    if x <= 0 {
        0
    } else {
        floor_sqrt(x * (ONE as int))
    }
}

pub fn fsqrt(x: i64) -> (r: i64)
    ensures
        r as int == sp_sqrt(x as int),
        0 <= r as int <= CAP,
        x > 0 ==> (r as int) * (r as int) <= (x as int) * (ONE as int) < (r as int + 1) * (
            r as int + 1),
{
    if x <= 0 {
        0
    } else {
        let n: u128 = (x as u128) * 4294967296u128;
        let s: u128 = isqrt_u128(n);
        proof {
            lemma_floor_sqrt(n as int);
            assert(s < 0x1_0000_0000_0000u128) by (nonlinear_arith)
                requires
                    (s as int) * (s as int) <= n as int,
                    n < 0x1_0000_0000_0000_0000_0000_0000u128,
                    s >= 0,
            ;
        }
        s as i64
    }
}

/// The exact chroma of an (a, b) pair: floor(sqrt(a^2 + b^2)) with the sum
/// of squares formed exactly, so the result is within one unit of the true
/// value even for tiny a and b.
pub open spec fn sp_chroma(a: int, b: int) -> int {
    floor_sqrt(a * a + b * b)
}

pub fn chroma_of(a: i64, b: i64) -> (r: i64)
    requires
        sp_abs(a as int) <= CAP,
        sp_abs(b as int) <= CAP,
    ensures
        r as int == sp_chroma(a as int, b as int),
        0 <= r as int <= 2 * CAP,
        (r as int) * (r as int) <= (a as int) * (a as int) + (b as int) * (b as int) < (
            r as int + 1) * (r as int + 1),
{
    let aa: u128 = crate::fixed::abs_u128(a);
    let bb: u128 = crate::fixed::abs_u128(b);
    proof {
        assert(aa * aa + bb * bb <= 2 * (0x100_0000_0000_0000u128 as int)
            * (0x100_0000_0000_0000u128 as int)) by (nonlinear_arith)
            requires
                aa <= 0x100_0000_0000_0000u128,
                bb <= 0x100_0000_0000_0000u128,
        ;
        assert((aa * aa + bb * bb) as int == (a as int) * (a as int) + (b as int) * (b as int))
            by (nonlinear_arith)
            requires
                aa == sp_abs(a as int),
                bb == sp_abs(b as int),
        ;
    }
    let n: u128 = aa * aa + bb * bb;
    let s: u128 = isqrt_u128(n);
    proof {
        lemma_floor_sqrt(n as int);
        assert(s <= 2 * (CAP as int)) by (nonlinear_arith)
            requires
                (s as int) * (s as int) <= n as int,
                n as int <= 2 * (0x100_0000_0000_0000int * 0x100_0000_0000_0000int),
                s >= 0,
                CAP == 0x100_0000_0000_0000i64,
        ;
    }
    s as i64
}

/// The fixed-point cube root: floor(cbrt(|x|/2^32) * 2^32) with the sign of x.
pub open spec fn sp_cbrt(x: int) -> int {
    if x >= 0 {
        floor_cbrt(x * (ONE as int) * (ONE as int))
    } else {
        -floor_cbrt(-x * (ONE as int) * (ONE as int))
    }
}

pub fn fcbrt(x: i64) -> (r: i64)
    requires
        sp_abs(x as int) <= CAP,
    ensures
        r as int == sp_cbrt(x as int),
        sp_abs(r as int) <= CAP,
        x >= 0 ==> (r as int) * (r as int) * (r as int) <= (x as int) * (ONE as int) * (
            ONE as int) < (r as int + 1) * (r as int + 1) * (r as int + 1),
{
    let neg: bool = x < 0;
    let ax: u128 = crate::fixed::abs_u128(x);
    proof {
        assert(ax * 4294967296u128 * 4294967296u128
            <= 0x100_0000_0000_0000_0000_0000_0000_0000u128) by (nonlinear_arith)
            requires
                ax <= 0x100_0000_0000_0000u128,
        ;
    }
    let n: u128 = ax * 4294967296u128 * 4294967296u128;
    let c: u128 = icbrt_u128(n);
    proof {
        lemma_floor_cbrt(n as int);
        assert(c <= 0x100_0000_0000u128) by (nonlinear_arith)
            requires
                (c as int) * (c as int) * (c as int) <= n as int,
                n <= 0x100_0000_0000_0000_0000_0000_0000_0000u128,
                c >= 0,
        ;
    }
    let ci: i64 = c as i64;
    if neg {
        -ci
    } else {
        ci
    }
}

/// The fixed-point fifth root, computed at a reduced scale of 2^25 and
/// rescaled: for u clamped into [0, 2], floor(((u_25) * 2^100)^(1/5)) * 2^7
/// where u_25 is u at scale 2^25.
pub open spec fn sp_root5(u: int) -> int {
    let u2 = if u < 0 {
        0
    } else if u > 2 * (ONE as int) {
        2 * (ONE as int)
    } else {
        u
    };
    floor_root5((u2 / 128) * 0x10_0000_0000_0000_0000_0000_0000int) * 128
}

pub fn froot5(u: i64) -> (r: i64)
    ensures
        r as int == sp_root5(u as int),
        0 <= r as int <= CAP,
{
    let uc: i64 = if u < 0 {
        0
    } else if u > 2 * ONE {
        2 * ONE
    } else {
        u
    };
    let u25: u128 = (uc as u128) / 128;
    proof {
        assert(u25 * 0x10_0000_0000_0000_0000_0000_0000u128
            <= 0x4000_0000_0000_0000_0000_0000_0000_0000u128) by (nonlinear_arith)
            requires
                u25 <= 0x400_0000u128,
        ;
    }
    let n: u128 = u25 * 0x10_0000_0000_0000_0000_0000_0000u128;
    let f: u128 = iroot5_u128(n);
    proof {
        lemma_floor_root5(n as int);
        assert(f <= 0x280_0000u128) by (nonlinear_arith)
            requires
                (f as int) * (f as int) * (f as int) * (f as int) * (f as int) <= n as int,
                n <= 0x4000_0000_0000_0000_0000_0000_0000_0000u128,
                f >= 0,
        ;
    }
    (f as i64) * 128
}

} // verus!
