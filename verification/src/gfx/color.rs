//! Colors, carried as the exact bit patterns the native API receives.

use vstd::prelude::*;

verus! {

/// The bit pattern of single-precision `0.0`.
pub const CHANNEL_ZERO: u32 = 0;

/// The bit pattern of single-precision `1.0`.
pub const CHANNEL_ONE: u32 = 0x3F80_0000;

/// An RGBA color. Each channel holds the IEEE-754 single-precision bit pattern
/// of its value, so a color passes through the library unchanged.
#[derive(Clone, Copy, Debug, PartialEq, Eq, Structural)]
pub struct Color {
    pub r: u32,
    pub g: u32,
    pub b: u32,
    pub a: u32,
}

impl Color {
    pub fn new(r: u32, g: u32, b: u32, a: u32) -> (color: Color)
        ensures
            color == (Color { r, g, b, a }),
    {
        Color { r, g, b, a }
    }

    /// All four channels zero.
    pub open spec fn spec_transparent() -> Color {
        Color { r: CHANNEL_ZERO, g: CHANNEL_ZERO, b: CHANNEL_ZERO, a: CHANNEL_ZERO }
    }

    #[verifier::when_used_as_spec(spec_transparent)]
    pub fn transparent() -> (color: Color)
        ensures
            color == Self::spec_transparent(),
    {
        Color { r: CHANNEL_ZERO, g: CHANNEL_ZERO, b: CHANNEL_ZERO, a: CHANNEL_ZERO }
    }

    pub fn black() -> (color: Color)
        ensures
            color == (Color { r: CHANNEL_ZERO, g: CHANNEL_ZERO, b: CHANNEL_ZERO, a: CHANNEL_ONE }),
    {
        Color { r: CHANNEL_ZERO, g: CHANNEL_ZERO, b: CHANNEL_ZERO, a: CHANNEL_ONE }
    }

    pub fn white() -> (color: Color)
        ensures
            color == (Color { r: CHANNEL_ONE, g: CHANNEL_ONE, b: CHANNEL_ONE, a: CHANNEL_ONE }),
    {
        Color { r: CHANNEL_ONE, g: CHANNEL_ONE, b: CHANNEL_ONE, a: CHANNEL_ONE }
    }

    pub fn blue() -> (color: Color)
        ensures
            color == (Color { r: CHANNEL_ZERO, g: CHANNEL_ZERO, b: CHANNEL_ONE, a: CHANNEL_ONE }),
    {
        Color { r: CHANNEL_ZERO, g: CHANNEL_ZERO, b: CHANNEL_ONE, a: CHANNEL_ONE }
    }
}

} // verus!
