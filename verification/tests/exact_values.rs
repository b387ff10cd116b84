//! Exact expected values: every operation of the library is a fully
//! specified integer function, so each formula is checked here against an
//! independently computed fixed-point result (value times 2^32).

use ok_picker::color::{LinSrgb, OkHsl, OkHsv, OkLCh, OkLab, Srgb};
use ok_picker::convert::srgb_to_oklab;
use ok_picker::gamut::{compute_max_saturation, find_cusp, find_gamut_intersection, inverse_toe,
    toe, Cs, LC, ST};
use ok_picker::gamma::srgb_to_linear;
use ok_picker::hsl::{okhsl_to_srgb, srgb_to_okhsl};
use ok_picker::hsv::{okhsv_to_srgb, srgb_to_okhsv};
use ok_picker::oklab::{linear_to_oklab, oklab_to_linear};
use ok_picker::polar::{oklab_to_oklch, oklch_to_oklab};

const ONE: i64 = 4294967296;

#[test]
fn gamma_decode_exact() {
    let c = srgb_to_linear(Srgb { red: 0, green: 85899346, blue: 2147483648 });
    assert_eq!(c, LinSrgb { red: 0, green: 6648556, blue: 919299630 });
    let w = srgb_to_linear(Srgb { red: ONE, green: ONE, blue: ONE });
    assert_eq!(w, LinSrgb { red: ONE, green: ONE, blue: ONE });
}

#[test]
fn gamma_encode_exact() {
    let c = ok_picker::gamma::linear_to_srgb(LinSrgb { red: 0, green: 4294967, blue: 919299524 });
    assert_eq!(c, Srgb { red: 0, green: 55490973, blue: 2147483456 });
    let w = ok_picker::gamma::linear_to_srgb(LinSrgb { red: ONE, green: ONE, blue: ONE });
    assert_eq!(w, Srgb { red: ONE, green: ONE, blue: ONE });
}

#[test]
fn oklab_transform_exact() {
    let lin = LinSrgb { red: 1288490189, green: 2576980378, blue: 429496730 };
    let lab = linear_to_oklab(lin);
    assert_eq!(lab, OkLab { lightness: 3355699489, a: -436511238, b: 510038533 });
    let back = oklab_to_linear(lab);
    assert_eq!(back, LinSrgb { red: 1288490377, green: 2576980298, blue: 429496367 });
}

#[test]
fn oklch_transform_exact() {
    let lab = OkLab { lightness: 3355699489, a: -436511238, b: 510038533 };
    let lch = oklab_to_oklch(lab);
    assert_eq!(lch, OkLCh { lightness: 3355699489, chroma: 671328061, hue: 9786816993 });
    let back = oklch_to_oklab(lch);
    assert_eq!(back, OkLab { lightness: 3355699489, a: -436511238, b: 510038531 });
}

#[test]
fn toe_exact() {
    assert_eq!(toe(0), 0);
    assert_eq!(toe(1073741824), 629702887);
    assert_eq!(toe(3221225472), 3046408521);
    assert_eq!(toe(ONE), 4294967294);
    assert_eq!(inverse_toe(0), 0);
    assert_eq!(inverse_toe(1073741824), 1493470325);
    assert_eq!(inverse_toe(3221225472), 3371897242);
    assert_eq!(inverse_toe(ONE), ONE);
}

#[test]
fn gamut_search_exact() {
    // The hue direction of the angle 0.7 rad.
    let a = 3284972181;
    let b = 2766893898;
    assert_eq!(compute_max_saturation(a, b), 1345034004);
    let cusp = find_cusp(a, b);
    assert_eq!(cusp, LC { lightness: 2927502869, chroma: 916791824 });
    let st = ST::from_cusp(cusp);
    assert_eq!(st, ST { s: 1345034002, t: 2879483241 });
    let mid = ST::mid(a, b);
    assert_eq!(mid, ST { s: 1269417866, t: 2842790790 });
    let l = 2576980378;
    assert_eq!(find_gamut_intersection(a, b, l, ONE, l, cusp), 807020400);
    let cs = Cs::from_lab(OkLab { lightness: l, a, b });
    assert_eq!(cs, Cs { c_0: 824633720, c_mid: 654767578, c_max: 807020400 });
}

#[test]
fn okhsv_conversion_exact() {
    let rgb = okhsv_to_srgb(OkHsv { hue: 3006477107, saturation: 2147483648, value: 2147483648 });
    assert_eq!(rgb, Srgb { red: 2057739861, green: 1267527639, blue: 989644956 });
    let back = srgb_to_okhsv(rgb);
    assert_eq!(back, OkHsv { hue: 3006477764, saturation: 2147484147, value: 2147483602 });
    let hsv = srgb_to_okhsv(Srgb { red: 3435973837, green: 1717986918, blue: 858993459 });
    assert_eq!(hsv, OkHsv { hue: 3378460004, saturation: 3488185707, value: 3487651979 });
}

#[test]
fn okhsl_conversion_exact() {
    let rgb = okhsl_to_srgb(OkHsl {
        hue: -8589934592,
        saturation: 3865470566,
        lightness: 1288490189,
    });
    assert_eq!(rgb, Srgb { red: 113323154, green: 1233227554, blue: 1975837046 });
    let back = srgb_to_okhsl(rgb);
    assert_eq!(back, OkHsl { hue: -8589934853, saturation: 3865469693, lightness: 1288490122 });
    let hsl = srgb_to_okhsl(Srgb { red: 3435973837, green: 1717986918, blue: 858993459 });
    assert_eq!(hsl, OkHsl { hue: 3378460004, saturation: 3345448041, lightness: 2414229020 });
}

#[test]
fn red_oklab_exact() {
    let lab = srgb_to_oklab(Srgb { red: ONE, green: 0, blue: 0 });
    assert_eq!(lab, OkLab { lightness: 2697047736, a: 965779493, b: 540505736 });
}
