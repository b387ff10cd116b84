//! Concrete conversion scenarios and the degenerate cases.

use ok_picker::color::{OkHsl, OkHsv, OkLab, Srgb};
use ok_picker::convert::{oklab_to_srgb, srgb_to_oklab};
use ok_picker::hsl::{okhsl_to_srgb, srgb_to_okhsl};
use ok_picker::hsv::{okhsv_to_srgb, srgb_to_okhsv};

const ONE: i64 = 4294967296;
const SCALE: f64 = 4294967296.0;

fn fx(v: f64) -> i64 {
    (v * SCALE).round() as i64
}

fn fl(x: i64) -> f64 {
    x as f64 / SCALE
}

#[test]
fn pure_red_oklab() {
    let red = Srgb { red: ONE, green: 0, blue: 0 };
    let lab = srgb_to_oklab(red);
    assert!((fl(lab.lightness) - 0.6280).abs() < 1e-4, "lightness {}", fl(lab.lightness));
    assert!((fl(lab.a) - 0.2249).abs() < 1e-4, "a {}", fl(lab.a));
    assert!((fl(lab.b) - 0.1258).abs() < 1e-4, "b {}", fl(lab.b));
    let back = oklab_to_srgb(lab);
    assert!((fl(back.red) - 1.0).abs() < 1e-5, "red {}", fl(back.red));
    assert!(fl(back.green).abs() < 1e-5, "green {}", fl(back.green));
    assert!(fl(back.blue).abs() < 1e-5, "blue {}", fl(back.blue));
}

#[test]
fn black_to_okhsl_is_zero() {
    let black = Srgb { red: 0, green: 0, blue: 0 };
    let hsl = srgb_to_okhsl(black);
    assert_eq!(hsl, OkHsl { hue: 0, saturation: 0, lightness: 0 });
}

#[test]
fn white_to_okhsl_is_light_one() {
    // Only the lightness is pinned down for white: the published matrix
    // rows do not sum exactly to one, so white sits a few 1e-8 off the
    // achromatic axis and its hue and saturation are not meaningful.
    let white = Srgb { red: ONE, green: ONE, blue: ONE };
    let hsl = srgb_to_okhsl(white);
    assert!((fl(hsl.lightness) - 1.0).abs() < 1e-5, "lightness {}", fl(hsl.lightness));
}

#[test]
fn okhsl_degenerate_lightness_is_exact() {
    for hue_step in 0..8 {
        let hue = fx(-3.0 + hue_step as f64 * 0.75);
        for sat_step in 0..=4 {
            let saturation = fx(sat_step as f64 / 4.0);
            let dark = okhsl_to_srgb(OkHsl { hue, saturation, lightness: 0 });
            assert_eq!(dark, Srgb { red: 0, green: 0, blue: 0 });
            let light = okhsl_to_srgb(OkHsl { hue, saturation, lightness: ONE });
            assert_eq!(light, Srgb { red: ONE, green: ONE, blue: ONE });
        }
    }
}

#[test]
fn okhsv_zero_value_is_black() {
    for hue_step in 0..8 {
        let hue = fx(-3.0 + hue_step as f64 * 0.75);
        for sat_step in 0..=4 {
            let saturation = fx(sat_step as f64 / 4.0);
            let rgb = okhsv_to_srgb(OkHsv { hue, saturation, value: 0 });
            assert_eq!(rgb, Srgb { red: 0, green: 0, blue: 0 });
        }
    }
}

#[test]
fn black_to_okhsv_is_zero() {
    let hsv = srgb_to_okhsv(Srgb { red: 0, green: 0, blue: 0 });
    assert_eq!(hsv, OkHsv { hue: 0, saturation: 0, value: 0 });
}

#[test]
fn white_to_okhsv_is_value_one() {
    let hsv = srgb_to_okhsv(Srgb { red: ONE, green: ONE, blue: ONE });
    assert!(fl(hsv.saturation).abs() < 1e-5, "saturation {}", fl(hsv.saturation));
    assert!((fl(hsv.value) - 1.0).abs() < 1e-5, "value {}", fl(hsv.value));
}

#[test]
fn out_of_range_inputs_are_clamped() {
    let base = okhsv_to_srgb(OkHsv { hue: fx(1.0), saturation: ONE, value: ONE });
    let over = okhsv_to_srgb(OkHsv { hue: fx(1.0), saturation: ONE + 12345, value: 2 * ONE });
    assert_eq!(base, over);
    let wrapped = okhsl_to_srgb(OkHsl { hue: fx(9.0), saturation: ONE, lightness: ONE / 2 });
    let clamped = okhsl_to_srgb(OkHsl {
        hue: ok_picker::trig::TWO_PI_FX,
        saturation: ONE,
        lightness: ONE / 2,
    });
    assert_eq!(wrapped, clamped);
}

#[test]
fn gray_is_almost_achromatic() {
    let gray = Srgb { red: ONE / 2, green: ONE / 2, blue: ONE / 2 };
    let lab = srgb_to_oklab(gray);
    // A gray lands within about 1e-7 of the Oklab lightness axis; the
    // published matrix rows do not cancel exactly, so it is not zero.
    assert!(lab.a.abs() <= 512 && lab.b.abs() <= 512, "a {} b {}", lab.a, lab.b);
}
