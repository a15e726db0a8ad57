//! The images the overlay draws, decoded into RGBA pixels.

use vstd::prelude::*;

verus! {

/// What `image` decodes from the given bytes read as PNG, converted to 8-bit RGBA:
/// width, height and the pixels row by row; `None` where the bytes are no PNG image
/// it can decode.
pub uninterp spec fn decoded_rgba(bytes: Seq<u8>) -> Option<(u32, u32, Seq<u8>)>;

/// `image::ImageReader::with_format(.., ImageFormat::Png)`, `decode()` and `to_rgba8()`
/// on in-memory bytes. With the format fixed to the built-in PNG decoder, `image`
/// consults none of its process-wide format or decoder hooks, so the result is a
/// function of the bytes alone, named `decoded_rgba`; an RGBA buffer holds four bytes
/// per pixel.
#[verifier::external_body]
fn decode_rgba(bytes: &[u8]) -> (r: Option<(u32, u32, Vec<u8>)>)
    ensures
        match r {
            Some((w, h, px)) => decoded_rgba(bytes@) == Some((w, h, px@)),
            None => decoded_rgba(bytes@) is None,
        },
        r matches Some((w, h, px)) ==> px@.len() == 4 * w * h,
{
    let reader = image::ImageReader::with_format(std::io::Cursor::new(bytes), image::ImageFormat::Png);
    let rgba = reader.decode().ok()?.to_rgba8();
    Some((rgba.width(), rgba.height(), rgba.into_raw()))
}

/// An image as 8-bit RGBA pixels, row by row.
pub struct RgbaTexture {
    pub width: u32,
    pub height: u32,
    pub pixels: Vec<u8>,
}

/// Decodes an embedded PNG image. Bytes that are no PNG image give `None` rather
/// than a panic; the caller decides what a broken embedded image means.
pub fn decode_texture(bytes: &[u8]) -> (texture: Option<RgbaTexture>)
    ensures
        match texture {
            Some(t) => decoded_rgba(bytes@) == Some((t.width, t.height, t.pixels@))
                && t.pixels@.len() == 4 * t.width * t.height,
            None => decoded_rgba(bytes@) is None,
        },
{
    match decode_rgba(bytes) {
        Some((width, height, pixels)) => Some(RgbaTexture { width, height, pixels }),
        None => None,
    }
}

} // verus!
