//! Lossless WebP encoding of one packed RGB pixel buffer, through the
//! image encoder crate. The encoder runs in memory; writing the produced
//! container to the filesystem is the host's part.

use vstd::prelude::*;

verus! {

/// Largest width or height the image container can hold.
pub const MAX_DIMENSION: u32 = 16384;

/// The lossless (VP8L) WebP container encoding a packed 3-byte-per-pixel
/// RGB buffer of the given dimensions. The encoder's output depends on
/// the pixel bytes and the dimensions alone.
pub uninterp spec fn webp_lossless(pixels: Seq<u8>, width: u32, height: u32) -> Seq<u8>;

/// Relies on image_webp::WebPEncoder::{new, encode}: lossless VP8L
/// encoding into an in-memory buffer. Writing to a Vec cannot fail, so
/// the only failure the encoder's source leaves is a dimension of zero or
/// above 16384; it panics unless the buffer holds exactly 3 bytes per
/// pixel, which the precondition rules out.
#[verifier::external_body]
pub(crate) fn encode_rgb_webp(pixels: &Vec<u8>, width: u32, height: u32) -> (r: Option<Vec<u8>>)
    requires
        pixels@.len() == 3 * (width as nat) * (height as nat),
    ensures
        r is Some <==> (1 <= width <= MAX_DIMENSION && 1 <= height <= MAX_DIMENSION),
        r is Some ==> r.unwrap()@ == webp_lossless(pixels@, width, height),
{
    let mut out: Vec<u8> = Vec::new();
    let encoder = image_webp::WebPEncoder::new(&mut out);
    match encoder.encode(pixels, width, height, image_webp::ColorType::Rgb8) {
        Ok(()) => Some(out),
        Err(_) => None,
    }
}

} // verus!
