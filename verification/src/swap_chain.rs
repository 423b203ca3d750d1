//! The description of a presentation target and the ways acquiring a frame
//! from it can fail.

use vstd::prelude::*;
use crate::dpi::PhysicalSize;

verus! {

/// Pixel formats every surface can present.
#[derive(Clone, Copy, Debug, PartialEq, Eq, Structural)]
pub enum TextureFormat {
    Bgra8Unorm,
    Bgra8UnormSrgb,
}

/// How finished frames are handed to the display.
#[derive(Clone, Copy, Debug, PartialEq, Eq, Structural)]
pub enum PresentMode {
    Immediate,
    Mailbox,
    Fifo,
}

/// What the images of a presentation target are used for, as a bit set.
#[derive(Clone, Copy, Debug, PartialEq, Eq, Structural)]
pub struct TextureUsage {
    pub bits: u32,
}

/// The one usage a presentation target supports: the images are written by
/// render passes.
pub const OUTPUT_ATTACHMENT: u32 = 16;

/// Everything needed to create a presentation target for a surface.
#[derive(Clone, Copy, Debug, PartialEq, Eq, Structural)]
pub struct SwapChainDescriptor {
    pub usage: TextureUsage,
    pub format: TextureFormat,
    pub width: u32,
    pub height: u32,
    pub present_mode: PresentMode,
}

impl SwapChainDescriptor {
    /// The description used for a surface of the given size: images that
    /// render passes write, in sRGB, presented in step with the display.
    pub open spec fn for_size(size: PhysicalSize) -> SwapChainDescriptor {
        SwapChainDescriptor {
            usage: TextureUsage { bits: OUTPUT_ATTACHMENT },
            format: TextureFormat::Bgra8UnormSrgb,
            width: size.width,
            height: size.height,
            present_mode: PresentMode::Fifo,
        }
    }

    /// This description with other dimensions and nothing else changed.
    pub open spec fn with_size(self, size: PhysicalSize) -> SwapChainDescriptor {
        SwapChainDescriptor { width: size.width, height: size.height, ..self }
    }

    /// The dimensions of the described target.
    pub open spec fn extent(self) -> PhysicalSize {
        PhysicalSize { width: self.width, height: self.height }
    }

    pub fn new(size: PhysicalSize) -> (descriptor: SwapChainDescriptor)
        ensures
            descriptor == SwapChainDescriptor::for_size(size),
    {
        SwapChainDescriptor {
            usage: TextureUsage { bits: OUTPUT_ATTACHMENT },
            format: TextureFormat::Bgra8UnormSrgb,
            width: size.width,
            height: size.height,
            present_mode: PresentMode::Fifo,
        }
    }
}

/// Why no frame could be acquired from the presentation target.
#[derive(Clone, Copy, Debug, PartialEq, Eq, Structural)]
pub enum SwapChainError {
    /// Waiting for the next frame took too long.
    Timeout,
    /// The surface changed under the target.
    Outdated,
    /// The target is gone and has to be created again.
    Lost,
    /// No memory is left for a new frame.
    OutOfMemory,
}

} // verus!
