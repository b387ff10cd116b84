//! The color representations. Every channel is a fixed-point value at
//! scale 2^32 (see `fixed`): the integer holds the real channel value
//! times 2^32. All types are plain immutable value types.

use vstd::prelude::*;

verus! {

/// A gamma-encoded, display-ready RGB color; channels conventionally in
/// [0, 2^32] (the real interval [0, 1]).
#[derive(Clone, Copy, Debug, PartialEq, Eq, Structural)]
pub struct Srgb {
    pub red: i64,
    pub green: i64,
    pub blue: i64,
}

/// A linear-light RGB color, before gamma encoding.
#[derive(Clone, Copy, Debug, PartialEq, Eq, Structural)]
pub struct LinSrgb {
    pub red: i64,
    pub green: i64,
    pub blue: i64,
}

/// A color in the perceptually uniform Oklab space: lightness nominally in
/// [0, 1], a and b signed and unbounded.
#[derive(Clone, Copy, Debug, PartialEq, Eq, Structural)]
pub struct OkLab {
    pub lightness: i64,
    pub a: i64,
    pub b: i64,
}

/// The polar form of Oklab: chroma is nonnegative, hue is an angle in
/// radians within (-pi, pi].
#[derive(Clone, Copy, Debug, PartialEq, Eq, Structural)]
pub struct OkLCh {
    pub lightness: i64,
    pub chroma: i64,
    pub hue: i64,
}

/// The gamut-constrained polar encoding that preserves lightness: hue in
/// radians within (-pi, pi], saturation and lightness in [0, 1].
#[derive(Clone, Copy, Debug, PartialEq, Eq, Structural)]
pub struct OkHsl {
    pub hue: i64,
    pub saturation: i64,
    pub lightness: i64,
}

/// The gamut-constrained polar encoding with a value channel: hue in
/// radians within (-pi, pi], saturation and value in [0, 1].
#[derive(Clone, Copy, Debug, PartialEq, Eq, Structural)]
pub struct OkHsv {
    pub hue: i64,
    pub saturation: i64,
    pub value: i64,
}

} // verus!
