//! Conversions between sRGB and the perceptually uniform Oklab family of
//! color spaces, including the gamut-constrained polar encodings OkHSL and
//! OkHSV.
//!
//! Every color channel is a signed fixed-point number: an `i64` holding the
//! real value times 2^32. All arithmetic is integer arithmetic with
//! truncation toward zero and saturation at `fixed::CAP`, and the roots at
//! the heart of the transforms are exact floor roots, so every conversion
//! is a total, deterministic function whose result is pinned down, bit for
//! bit, by its contract. The 2^-32 channel granularity keeps the round
//! trips of the polar encodings within the same tolerance as a double
//! precision implementation of the same formulas.
//!
//! Out-of-range inputs never panic: angles and the polar coordinates are
//! clamped to their domains, and colors a hair outside the gamut follow
//! the same formulas outward, as interactive picker widgets expect.

pub mod fixed;
pub mod root;
pub mod trig;
pub mod color;
pub mod gamma;
pub mod oklab;
pub mod polar;
pub mod gamut;
pub mod hsv;
pub mod hsl;
pub mod convert;

pub use color::{Srgb, LinSrgb, OkLab, OkLCh, OkHsl, OkHsv};
pub use gamma::{srgb_to_linear, linear_to_srgb};
pub use oklab::{linear_to_oklab, oklab_to_linear};
pub use polar::{oklab_to_oklch, oklch_to_oklab};
pub use convert::{srgb_to_oklab, oklab_to_srgb};
pub use gamut::{LC, ST, Cs, toe, inverse_toe, compute_max_saturation, find_cusp,
    find_gamut_intersection};
pub use hsv::{srgb_to_okhsv, okhsv_to_srgb};
pub use hsl::{srgb_to_okhsl, okhsl_to_srgb};
