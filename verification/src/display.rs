//! The display service model: the graphics output capability's mode
//! descriptor, which is the single source of truth for where the
//! framebuffer lives and how many bytes it spans.
//!
//! The firmware populates these structures once the capability lookup
//! succeeds; this model holds their fields as plain values.

use vstd::prelude::*;

verus! {

/// How many bytes one pixel occupies in the framebuffer.
pub const BYTES_PER_PIXEL: usize = 4;

/// The pixel-format descriptor: version, resolutions, and the scan-line
/// stride in pixels. The reserved padding words carry no information and
/// are not modeled; the descriptor's 36-byte size is asserted in the ABI
/// binding layer.
#[derive(Clone, Copy, Debug, PartialEq, Eq, Structural)]
pub struct PixelFormatInfo {
    pub version: u32,
    pub horizontal_resolution: u32,
    pub vertical_resolution: u32,
    pub pixels_per_scan_line: u32,
}

/// The display mode descriptor: mode indices, the pixel format and its
/// byte size, and the framebuffer's base address and byte length.
#[derive(Clone, Copy, Debug, PartialEq, Eq, Structural)]
pub struct GraphicsMode {
    pub max_mode: u32,
    pub mode: u32,
    pub info: PixelFormatInfo,
    pub size_of_info: u64,
    pub frame_buffer_base: usize,
    pub frame_buffer_size: usize,
}

/// The graphics output capability handle: the firmware's reserved words
/// are opaque, so only the current mode descriptor is modeled.
#[derive(Clone, Copy, Debug, PartialEq, Eq, Structural)]
pub struct GraphicsOutput {
    pub mode: GraphicsMode,
}

impl GraphicsMode {
    /// How many whole pixels the framebuffer holds: its byte length
    /// divided by four, rounding down.
    pub fn pixel_count(&self) -> (n: usize)
        ensures
            n == self.frame_buffer_size as int / BYTES_PER_PIXEL as int,
    {
        self.frame_buffer_size / BYTES_PER_PIXEL
    }
}

} // verus!
