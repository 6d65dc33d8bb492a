use vstd::prelude::*;

verus! {

/// What decoding `data` as an encoded image (PNG and the other formats the
/// decoder knows, told apart by their contents) gives: the width, the height
/// and the 8-bit RGBA pixels row by row, or `None` when `data` is not an
/// image the decoder can read.
pub uninterp spec fn spec_decode_rgba8(data: Seq<u8>) -> Option<(u32, u32, Seq<u8>)>;

/// Calls `image::load_from_memory` on `data` and converts the image with
/// `to_rgba8` and `into_raw`. Claimed: the result is the named decoding of
/// the bytes, `None` exactly when the decoder refuses them, and the pixels
/// are four bytes for each of the `w * h` pixels. Which images the decoder
/// accepts and what pixels it produces are left to the name.
#[verifier::external_body]
fn decode_rgba8(data: &[u8]) -> (r: Option<(u32, u32, Vec<u8>)>)
    ensures
        (r is None) == (spec_decode_rgba8(data@) is None),
        r matches Some((w, h, px)) ==> spec_decode_rgba8(data@) == Some((w, h, px@))
            && px@.len() == 4 * w * h,
{
    let img = image::load_from_memory(data).ok()?.to_rgba8();
    let (w, h) = img.dimensions();
    Some((w, h, img.into_raw()))
}

/// Decodes image bytes (e.g. a PNG file) into the width, height and RGBA
/// pixels a texture is made from; `None` when the bytes are not an image.
pub fn texture_pixels(data: &[u8]) -> (r: Option<(u32, u32, Vec<u8>)>)
    ensures
        (r is None) == (spec_decode_rgba8(data@) is None),
        r matches Some((w, h, px)) ==> spec_decode_rgba8(data@) == Some((w, h, px@))
            && px@.len() == 4 * w * h,
{
    decode_rgba8(data)
}

} // verus!
