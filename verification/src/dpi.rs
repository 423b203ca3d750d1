//! Sizes and positions in physical pixels.

use vstd::prelude::*;

verus! {

/// The size of a surface in physical pixels.
#[derive(Clone, Copy, Debug, PartialEq, Eq, Structural)]
pub struct PhysicalSize {
    pub width: u32,
    pub height: u32,
}

impl PhysicalSize {
    /// A size has an area when neither side is zero.
    pub open spec fn has_area(self) -> bool {
        self.width > 0 && self.height > 0
    }

    pub fn new(width: u32, height: u32) -> (size: PhysicalSize)
        ensures
            size.width == width,
            size.height == height,
    {
        PhysicalSize { width, height }
    }

    /// Whether a presentation target of this size can exist.
    pub fn is_presentable(&self) -> (b: bool)
        ensures
            b == self.has_area(),
        no_unwind
    {
        self.width > 0 && self.height > 0
    }
}

/// A position on a surface in physical pixels, from its top left corner.
///
/// Each coordinate is a binary64 number in IEEE 754 interchange format,
/// kept as its 64 bits.
#[derive(Clone, Copy, Debug, PartialEq, Eq, Structural)]
pub struct PhysicalPosition {
    pub x: u64,
    pub y: u64,
}

impl PhysicalPosition {
    pub fn new(x: u64, y: u64) -> (position: PhysicalPosition)
        ensures
            position.x == x,
            position.y == y,
    {
        PhysicalPosition { x, y }
    }
}

} // verus!
