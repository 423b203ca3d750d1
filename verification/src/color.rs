//! Colours as the GPU receives them.

use vstd::prelude::*;

verus! {

/// The bit pattern of the channel value zero.
pub const CHANNEL_ZERO: u64 = 0;

/// The bit pattern of the channel value one.
pub const CHANNEL_ONE: u64 = 0x3FF0_0000_0000_0000;

/// An RGBA colour.
///
/// A channel is a binary64 number in IEEE 754 interchange format, kept as
/// its 64 bits. The library stores and compares channels and never computes
/// with them, so the bits are all it needs.
#[derive(Clone, Copy, Debug, PartialEq, Eq, Structural)]
pub struct Color {
    pub r: u64,
    pub g: u64,
    pub b: u64,
    pub a: u64,
}

impl Color {
    /// The colour a freshly made render state clears to: red a tenth, green
    /// two tenths, blue three tenths, each rounded to the nearest binary64,
    /// and no alpha.
    pub open spec fn initial() -> Color {
        Color {
            r: 0x3FB9_9999_9999_999A,
            g: 0x3FC9_9999_9999_999A,
            b: 0x3FD3_3333_3333_3333,
            a: CHANNEL_ZERO,
        }
    }

    /// The colour that follows the pointer: red and green are the two given
    /// ratios, blue is one and alpha is zero.
    pub open spec fn tracking(x: u64, y: u64) -> Color {
        Color { r: x, g: y, b: CHANNEL_ONE, a: CHANNEL_ZERO }
    }

    pub fn new(r: u64, g: u64, b: u64, a: u64) -> (color: Color)
        ensures
            color == (Color { r, g, b, a }),
    {
        Color { r, g, b, a }
    }

    pub fn default_clear() -> (color: Color)
        ensures
            color == Color::initial(),
    {
        Color {
            r: 0x3FB9_9999_9999_999A,
            g: 0x3FC9_9999_9999_999A,
            b: 0x3FD3_3333_3333_3333,
            a: CHANNEL_ZERO,
        }
    }

    pub fn from_ratios(x: u64, y: u64) -> (color: Color)
        ensures
            color == Color::tracking(x, y),
        no_unwind
    {
        Color { r: x, g: y, b: CHANNEL_ONE, a: CHANNEL_ZERO }
    }
}

} // verus!
