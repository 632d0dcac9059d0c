//! PNG serialization of the readback raster.
//!
//! Encoding is pure computation on the pixel bytes and is delegated to the
//! `image` crate behind a trusted wrapper; writing the encoded bytes to disk
//! is left to the caller outside this crate.

use vstd::prelude::*;
use crate::raster::{spec_solid_raster, Rgba};

verus! {

/// The PNG encoding of a tightly packed RGBA8 raster of the given extent.
/// The encoder's output is a pure function of the pixel bytes and the extent;
/// its exact byte stream is not restated here, only named.
pub uninterp spec fn png_of(pixels: Seq<u8>, width: u32, height: u32) -> Seq<u8>;

#[verifier::external_type_specification]
#[verifier::external_body]
pub struct ExImageError(image::ImageError);

/// Relies on `image::codecs::png::PngEncoder::write_image`: encodes the
/// raster as a PNG into an in-memory byte vector.  The result depends on the
/// pixel bytes and the extent alone.  The encoder panics when the buffer
/// length does not match the extent, so that case is excluded here; on the
/// admitted inputs every failure path of the encoder is unreachable — the
/// extent is nonzero, RGBA with 8-bit channels is a supported combination,
/// and the writer is an in-memory vector whose writes cannot fail — so the
/// call always returns the encoding.
#[verifier::external_body]
fn encode_rgba8(pixels: &Vec<u8>, width: u32, height: u32) -> (r: Result<
    Vec<u8>,
    image::ImageError,
>)
    requires
        0 < width,
        0 < height,
        pixels@.len() == width as int * height as int * 4,
    ensures
        r is Ok,
        r matches Ok(v) ==> v@ == png_of(pixels@, width, height),
{
    let mut out: Vec<u8> = Vec::new();
    let encoder = image::codecs::png::PngEncoder::new(&mut out);
    match image::ImageEncoder::write_image(
        encoder,
        pixels.as_slice(),
        width,
        height,
        image::ExtendedColorType::Rgba8,
    ) {
        Ok(()) => Ok(out),
        Err(e) => Err(e),
    }
}

/// Encode an RGBA8 raster as PNG bytes: exactly the encoding of the given
/// pixels at the given extent.
pub fn encode_png(pixels: &Vec<u8>, width: u32, height: u32) -> (r: Vec<u8>)
    requires
        0 < width,
        0 < height,
        pixels@.len() == width as int * height as int * 4,
    ensures
        r@ == png_of(pixels@, width, height),
{
    match encode_rgba8(pixels, width, height) {
        Ok(v) => v,
        Err(_) => {
            proof {
                assert(false);
            }
            Vec::new()
        },
    }
}

/// Offscreen determinism: two successful runs encode the same raster, so
/// their output files hold identical bytes.  Stated over the expected frame
/// contents: any two readbacks that both equal the solid raster of the run's
/// fixed extent and clear color have equal PNG encodings.
pub proof fn lemma_offscreen_idempotent(
    a: Seq<u8>,
    b: Seq<u8>,
    width: u32,
    height: u32,
    c: Rgba,
)
    requires
        a == spec_solid_raster(width, height, c),
        b == spec_solid_raster(width, height, c),
    ensures
        png_of(a, width, height) == png_of(b, width, height),
{
}

} // verus!
