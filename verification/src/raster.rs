//! The offscreen frame's pixel contents and its PNG encoding.
//!
//! The offscreen path performs exactly one GPU operation on its image: a
//! clear to a fixed color.  The raster the host reads back is therefore a
//! solid-color RGBA8 raster, described exactly here, and the PNG file written
//! at the end is the encoding of that raster.

use vstd::prelude::*;

verus! {

/// One RGBA8 pixel.
#[derive(Clone, Copy, PartialEq, Eq, Structural, Debug)]
pub struct Rgba {
    pub r: u8,
    pub g: u8,
    pub b: u8,
    pub a: u8,
}

/// The color every frame is cleared to: opaque blue.
pub open spec fn spec_clear_color() -> Rgba {
    Rgba { r: 0, g: 0, b: 255, a: 255 }
}

/// The color every frame is cleared to: opaque blue, (0, 0, 255, 255) in RGBA8.
pub fn clear_color() -> (c: Rgba)
    ensures
        c == spec_clear_color(),
{
    Rgba { r: 0, g: 0, b: 255, a: 255 }
}

/// The byte a tightly packed RGBA8 raster of color `c` holds at offset `i`.
pub open spec fn spec_channel(c: Rgba, i: int) -> u8 {
    if i % 4 == 0 {
        c.r
    } else if i % 4 == 1 {
        c.g
    } else if i % 4 == 2 {
        c.b
    } else {
        c.a
    }
}

/// A solid raster of the given extent and color, as a byte sequence:
/// `width * height` pixels of four bytes each, every pixel equal to `c`.
pub open spec fn spec_solid_raster(width: u32, height: u32, c: Rgba) -> Seq<u8> {
    Seq::new((width * height * 4) as nat, |i: int| spec_channel(c, i))
}

/// Build the solid raster in memory: the exact bytes the readback buffer
/// holds after the clear-and-copy frame has completed.
pub fn solid_raster(width: u32, height: u32, c: Rgba) -> (r: Vec<u8>)
    requires
        width as int * height as int * 4 <= usize::MAX,
    ensures
        r@ == spec_solid_raster(width, height, c),
        r@.len() == width as int * height as int * 4,
{
    let total: usize = (width as usize) * (height as usize) * 4;
    let mut out: Vec<u8> = Vec::new();
    let mut p: usize = 0;
    while p < total
        invariant
            p % 4 == 0,
            p <= total,
            total == width as int * height as int * 4,
            out@.len() == p,
            forall|i: int| 0 <= i < p ==> out@[i] == spec_channel(c, i),
        decreases total - p,
    {
        out.push(c.r);
        out.push(c.g);
        out.push(c.b);
        out.push(c.a);
        proof {
            assert forall|i: int| 0 <= i < p + 4 implies out@[i] == spec_channel(c, i) by {
                if i >= p {
                    assert((p + 0) % 4 == 0 && (p + 1) % 4 == 1 && (p + 2) % 4 == 2 && (p + 3)
                        % 4 == 3);
                }
            }
        }
        p = p + 4;
    }
    proof {
        assert(out@ =~= spec_solid_raster(width, height, c));
    }
    out
}

} // verus!
