//! A verified model of a one-frame graphics demo.
//!
//! The program this library drives opens a graphics device, renders exactly
//! one frame — offscreen it clears a fixed-size image to a solid color, copies
//! it into a host buffer and encodes it as a PNG; windowed it negotiates a
//! swapchain and draws one triangle — and then stops.  All talking to the
//! driver and the window system happens outside this crate; the decisions,
//! the negotiated values, the ordering rules and the expected raster contents
//! are specified and proved here.

pub mod device;
pub mod events;
pub mod frame;
pub mod info;
pub mod pipeline;
pub mod png;
pub mod raster;
pub mod swapchain;

use vstd::prelude::*;

verus! {

/// Number of bytes in one RGBA8 pixel.
pub const BYTES_PER_PIXEL: u64 = 4;

/// Byte length of a tightly packed RGBA8 raster of the given extent.
pub fn readback_len(width: u32, height: u32) -> (n: u64)
    requires
        width as int * height as int * 4 <= u64::MAX,
    ensures
        n == width as int * height as int * 4,
{
    (width as u64) * (height as u64) * BYTES_PER_PIXEL
}

} // verus!
