//! The composed conversions between gamma-encoded sRGB and Oklab, and the
//! zero lemmas that pin down the image of black.

use vstd::prelude::*;
use crate::fixed::{CAP, lemma_mul_zero, lemma_div_zero};
use crate::gamma::{sp_channel_to_linear, sp_channel_to_gamma, srgb_to_linear, linear_to_srgb,
    GAMMA_SLOPE};
use crate::oklab::{sp_oklab_l, sp_oklab_a, sp_oklab_b, sp_linear_r, sp_linear_g, sp_linear_b,
    sp_dot3, linear_to_oklab, oklab_to_linear, MF1_00, MF1_01, MF1_02, MF1_10,
    MF1_11, MF1_12, MF1_20, MF1_21, MF1_22, MF2_00, MF2_01, MF2_02, MF2_10, MF2_11, MF2_12,
    MF2_20, MF2_21, MF2_22, MI1_01, MI1_02, MI1_11, MI1_12, MI1_21, MI1_22, MI2_00, MI2_01,
    MI2_02, MI2_10, MI2_11, MI2_12, MI2_20, MI2_21, MI2_22};
use crate::color::{Srgb, OkLab};

verus! {

/// The Oklab lightness of a gamma-encoded color.
pub open spec fn sp_srgb_lab_l(r: int, g: int, b: int) -> int {
    sp_oklab_l(sp_channel_to_linear(r), sp_channel_to_linear(g), sp_channel_to_linear(b))
}

/// The Oklab a channel of a gamma-encoded color.
pub open spec fn sp_srgb_lab_a(r: int, g: int, b: int) -> int {
    sp_oklab_a(sp_channel_to_linear(r), sp_channel_to_linear(g), sp_channel_to_linear(b))
}

/// The Oklab b channel of a gamma-encoded color.
pub open spec fn sp_srgb_lab_b(r: int, g: int, b: int) -> int {
    sp_oklab_b(sp_channel_to_linear(r), sp_channel_to_linear(g), sp_channel_to_linear(b))
}

/// A zero dot product stays zero.
pub proof fn lemma_dot3_zero(c0: int, c1: int, c2: int)
    ensures
        sp_dot3(c0, c1, c2, 0, 0, 0) == 0,
{
    lemma_mul_zero(c0);
    lemma_mul_zero(c1);
    lemma_mul_zero(c2);
}

/// The Oklab image of linear black is exactly the origin.
pub proof fn lemma_oklab_of_zero()
    ensures
        sp_oklab_l(0, 0, 0) == 0,
        sp_oklab_a(0, 0, 0) == 0,
        sp_oklab_b(0, 0, 0) == 0,
{
    lemma_dot3_zero(MF1_00 as int, MF1_01 as int, MF1_02 as int);
    lemma_dot3_zero(MF1_10 as int, MF1_11 as int, MF1_12 as int);
    lemma_dot3_zero(MF1_20 as int, MF1_21 as int, MF1_22 as int);
    assert(crate::root::sp_cbrt(0) == crate::root::floor_cbrt(0)) by {
        assert(0 * (crate::fixed::ONE as int) * (crate::fixed::ONE as int) == 0)
            by (nonlinear_arith);
    }
    lemma_dot3_zero(MF2_00 as int, MF2_01 as int, MF2_02 as int);
    lemma_dot3_zero(MF2_10 as int, MF2_11 as int, MF2_12 as int);
    lemma_dot3_zero(MF2_20 as int, MF2_21 as int, MF2_22 as int);
}

/// The linear RGB image of the Oklab origin is exactly black.
pub proof fn lemma_linear_of_zero()
    ensures
        sp_linear_r(0, 0, 0) == 0,
        sp_linear_g(0, 0, 0) == 0,
        sp_linear_b(0, 0, 0) == 0,
{
    lemma_mul_zero(MI1_01 as int);
    lemma_mul_zero(MI1_02 as int);
    lemma_mul_zero(MI1_11 as int);
    lemma_mul_zero(MI1_12 as int);
    lemma_mul_zero(MI1_21 as int);
    lemma_mul_zero(MI1_22 as int);
    lemma_mul_zero(0);
    lemma_dot3_zero(MI2_00 as int, MI2_01 as int, MI2_02 as int);
    lemma_dot3_zero(MI2_10 as int, MI2_11 as int, MI2_12 as int);
    lemma_dot3_zero(MI2_20 as int, MI2_21 as int, MI2_22 as int);
}

/// A zero gamma-encoded channel decodes to exactly zero.
pub proof fn lemma_to_linear_zero()
    ensures
        sp_channel_to_linear(0) == 0,
{
    lemma_div_zero(GAMMA_SLOPE as int);
}

/// Converts a gamma-encoded color to Oklab; black maps exactly to the
/// origin.
pub fn srgb_to_oklab(c: Srgb) -> (r: OkLab)
    ensures
        r.lightness as int == sp_srgb_lab_l(c.red as int, c.green as int, c.blue as int),
        r.a as int == sp_srgb_lab_a(c.red as int, c.green as int, c.blue as int),
        r.b as int == sp_srgb_lab_b(c.red as int, c.green as int, c.blue as int),
        -CAP <= r.lightness as int <= CAP,
        -CAP <= r.a as int <= CAP,
        -CAP <= r.b as int <= CAP,
        c.red == 0 && c.green == 0 && c.blue == 0 ==> r.lightness == 0 && r.a == 0 && r.b == 0,
{
    proof {
        if c.red == 0 && c.green == 0 && c.blue == 0 {
            lemma_to_linear_zero();
            lemma_oklab_of_zero();
        }
    }
    linear_to_oklab(srgb_to_linear(c))
}

/// Converts an Oklab color to gamma-encoded sRGB; the origin maps exactly
/// to black.
pub fn oklab_to_srgb(c: OkLab) -> (r: Srgb)
    ensures
        r.red as int == sp_channel_to_gamma(sp_linear_r(c.lightness as int, c.a as int,
            c.b as int)),
        r.green as int == sp_channel_to_gamma(sp_linear_g(c.lightness as int, c.a as int,
            c.b as int)),
        r.blue as int == sp_channel_to_gamma(sp_linear_b(c.lightness as int, c.a as int,
            c.b as int)),
        c.lightness == 0 && c.a == 0 && c.b == 0 ==> r.red == 0 && r.green == 0 && r.blue == 0,
{
    proof {
        if c.lightness == 0 && c.a == 0 && c.b == 0 {
            lemma_linear_of_zero();
            lemma_mul_zero(GAMMA_SLOPE as int);
        }
    }
    linear_to_srgb(oklab_to_linear(c))
}

} // verus!
