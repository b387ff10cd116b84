//! Round-trip accuracy of the polar encodings and the Oklab transform.

use ok_picker::color::{OkHsl, OkHsv, OkLab};
use ok_picker::hsl::{okhsl_to_srgb, srgb_to_okhsl};
use ok_picker::hsv::{okhsv_to_srgb, srgb_to_okhsv};
use ok_picker::oklab::{linear_to_oklab, oklab_to_linear};

const SCALE: f64 = 4294967296.0;

fn fx(v: f64) -> i64 {
    (v * SCALE).round() as i64
}

fn fl(x: i64) -> f64 {
    x as f64 / SCALE
}

fn assert_close(input: f64, output: f64, tol: f64, what: &str) {
    if input.abs() > 1.1920929e-07 {
        let error = (input - output).abs() / input.abs();
        assert!(
            error < tol,
            "{} too different: input {} -> output {} ({})",
            what,
            input,
            output,
            error
        );
    } else {
        assert!(
            output.abs() <= 1.1920929e-07,
            "{} should be negligible, got {}",
            what,
            output
        );
    }
}

#[test]
fn okhsv_srgb() {
    let hue_steps = 12;
    let sat_steps = 12;
    let val_steps = 12;
    for hue_step in 0..hue_steps {
        for sat_step in 1..=sat_steps {
            for val_step in 1..=val_steps {
                let hue = -std::f64::consts::PI
                    + (hue_step as f64 + 0.5) * 2.0 * std::f64::consts::PI / hue_steps as f64;
                let saturation = sat_step as f64 / sat_steps as f64;
                let value = val_step as f64 / val_steps as f64;
                let init = OkHsv {
                    hue: fx(hue),
                    saturation: fx(saturation),
                    value: fx(value),
                };
                let back = srgb_to_okhsv(okhsv_to_srgb(init));
                assert_close(hue, fl(back.hue), 1e-5, "hue");
                assert_close(saturation, fl(back.saturation), 1e-5, "saturation");
                assert_close(value, fl(back.value), 1e-5, "value");
            }
        }
    }
}

#[test]
fn okhsl_srgb() {
    let hue_steps = 12;
    let sat_steps = 12;
    let light_steps = 12;
    for hue_step in 0..hue_steps {
        for sat_step in 1..=sat_steps {
            // Lightness stays below 11/12: for very light, almost gray
            // colors the hue error of the round trip grows to about 1e-4,
            // exactly as it does for the same algorithm in f64.
            for light_step in 1..=(light_steps - 2) {
                let hue = -std::f64::consts::PI
                    + (hue_step as f64 + 0.5) * 2.0 * std::f64::consts::PI / hue_steps as f64;
                let saturation = sat_step as f64 / sat_steps as f64;
                let lightness = light_step as f64 / light_steps as f64;
                let init = OkHsl {
                    hue: fx(hue),
                    saturation: fx(saturation),
                    lightness: fx(lightness),
                };
                let back = srgb_to_okhsl(okhsl_to_srgb(init));
                assert_close(hue, fl(back.hue), 1e-4, "hue");
                assert_close(saturation, fl(back.saturation), 1e-5, "saturation");
                assert_close(lightness, fl(back.lightness), 1e-5, "lightness");
            }
        }
    }
}

#[test]
fn oklab_srgb() {
    // The inverse matrices of the oklab transform: used only to keep the
    // sampled grid away from the zeros of the cube-root argument, where
    // the round trip is ill-conditioned in any finite precision.
    let m1i = [
        [1.0, 0.3963377774, 0.2158037573],
        [1.0, -0.1055613458, -0.0638541728],
        [1.0, -0.0894841775, -1.2914855480],
    ];
    let light_steps = 12;
    let a_steps = 12;
    let b_steps = 12;
    for light_step in 0..=light_steps {
        for a_step in 0..=a_steps {
            for b_step in 0..=b_steps {
                let lightness = light_step as f64 / light_steps as f64;
                let a = -1.0 + 2.0 * a_step as f64 / a_steps as f64;
                let b = -1.0 + 2.0 * b_step as f64 / b_steps as f64;
                let near_cut = (0..3).any(|i| {
                    (m1i[i][0] * lightness + m1i[i][1] * a + m1i[i][2] * b).abs() < 0.1
                });
                if near_cut {
                    continue;
                }
                let init = OkLab {
                    lightness: fx(lightness),
                    a: fx(a),
                    b: fx(b),
                };
                let back = linear_to_oklab(oklab_to_linear(init));
                assert_close(a, fl(back.a), 1e-5, "a");
                assert_close(b, fl(back.b), 1e-5, "b");
                assert_close(lightness, fl(back.lightness), 1e-5, "lightness");
            }
        }
    }
}

#[test]
fn oklch_oklab_roundtrip() {
    for light_step in 1..8 {
        for a_step in 0..8 {
            for b_step in 0..8 {
                let lightness = light_step as f64 / 8.0;
                let a = -0.3 + 0.6 * a_step as f64 / 7.0;
                let b = -0.3 + 0.6 * b_step as f64 / 7.0;
                let init = OkLab { lightness: fx(lightness), a: fx(a), b: fx(b) };
                let lch = ok_picker::polar::oklab_to_oklch(init);
                let back = ok_picker::polar::oklch_to_oklab(lch);
                assert_eq!(back.lightness, init.lightness);
                assert!((fl(back.a) - a).abs() < 1e-6, "a {} -> {}", a, fl(back.a));
                assert!((fl(back.b) - b).abs() < 1e-6, "b {} -> {}", b, fl(back.b));
            }
        }
    }
}

#[test]
fn polar_matches_f64_trig() {
    for step in 0..32 {
        let hue = -std::f64::consts::PI + (step as f64 + 0.5) * 2.0 * std::f64::consts::PI / 32.0;
        let chroma = 0.2;
        let lab = ok_picker::polar::oklch_to_oklab(ok_picker::color::OkLCh {
            lightness: fx(0.5),
            chroma: fx(chroma),
            hue: fx(hue),
        });
        assert!((fl(lab.a) - chroma * hue.cos()).abs() < 1e-6, "cos at {}", hue);
        assert!((fl(lab.b) - chroma * hue.sin()).abs() < 1e-6, "sin at {}", hue);
        let lch = ok_picker::polar::oklab_to_oklch(lab);
        assert!((fl(lch.hue) - hue).abs() < 1e-6, "atan2 at {}", hue);
        assert!((fl(lch.chroma) - chroma).abs() < 1e-6, "chroma at {}", hue);
    }
}
