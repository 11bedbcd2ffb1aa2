//! Color values.

use vstd::prelude::*;

verus! {

/// An RGBA color with 8-bit channels.
#[derive(Clone, Copy, Debug, PartialEq, Eq, Structural)]
pub struct RGBA {
    pub r: u8,
    pub g: u8,
    pub b: u8,
    pub a: u8,
}

impl RGBA {
    /// The color with the given channels.
    pub fn new(r: u8, g: u8, b: u8, a: u8) -> (c: RGBA)
        ensures
            c == (RGBA { r, g, b, a }),
    {
        RGBA { r, g, b, a }
    }

    /// The fully opaque color with the given channels.
    pub fn opaque(r: u8, g: u8, b: u8) -> (c: RGBA)
        ensures
            c == (RGBA { r, g, b, a: 255u8 }),
    {
        RGBA { r, g, b, a: 255 }
    }
}

} // verus!
