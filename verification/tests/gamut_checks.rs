//! The gamut-boundary properties: the cusp sits on the unit boundary and
//! the whole OkHSV unit cube lands inside the sRGB gamut.

use ok_picker::color::{OkHsv, OkLab};
use ok_picker::fixed::fmul;
use ok_picker::gamut::find_cusp;
use ok_picker::hsv::okhsv_to_srgb;
use ok_picker::oklab::oklab_to_linear;

const ONE: i64 = 4294967296;
const SCALE: f64 = 4294967296.0;

fn fx(v: f64) -> i64 {
    (v * SCALE).round() as i64
}

fn fl(x: i64) -> f64 {
    x as f64 / SCALE
}

#[test]
fn cusp_boundary() {
    for hue_step in 0..64 {
        let hue = -std::f64::consts::PI
            + (hue_step as f64 + 0.5) * 2.0 * std::f64::consts::PI / 64.0;
        let a = fx(hue.cos());
        let b = fx(hue.sin());
        let cusp = find_cusp(a, b);
        let rgb = oklab_to_linear(OkLab {
            lightness: cusp.lightness,
            a: fmul(cusp.chroma, a),
            b: fmul(cusp.chroma, b),
        });
        let max_ch = rgb.red.max(rgb.green).max(rgb.blue);
        assert!(
            (fl(max_ch) - 1.0).abs() < 1e-5,
            "hue {}: cusp max channel {}",
            hue,
            fl(max_ch)
        );
    }
}

#[test]
fn gamut_containment() {
    // One Halley step leaves the boundary colors within about 1e-4 of the
    // unit cube, the documented accuracy of the search; interior points
    // stay well inside.
    let lo = fx(-2e-4);
    let hi = ONE + fx(2e-4);
    for hue_step in 0..16 {
        for sat_step in 0..=8 {
            for val_step in 0..=8 {
                let hue = -std::f64::consts::PI
                    + (hue_step as f64 + 0.5) * 2.0 * std::f64::consts::PI / 16.0;
                let rgb = okhsv_to_srgb(OkHsv {
                    hue: fx(hue),
                    saturation: fx(sat_step as f64 / 8.0),
                    value: fx(val_step as f64 / 8.0),
                });
                for ch in [rgb.red, rgb.green, rgb.blue] {
                    assert!(
                        lo <= ch && ch <= hi,
                        "hue {} s {} v {}: channel {} out of gamut",
                        hue,
                        sat_step,
                        val_step,
                        fl(ch)
                    );
                }
            }
        }
    }
}
