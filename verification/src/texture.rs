//! Decoding of the embedded texture image.
//!
//! The renderer ships one PNG image inside the binary and uploads it as a
//! 2D texture at startup. Decoding the bytes into RGBA pixels is done by
//! the image library behind a trusted wrapper; uploading the pixels to the
//! GPU is the unverified shell's work.

use vstd::prelude::*;

verus! {

/// What the image library decodes the given PNG bytes into: `None` where
/// the bytes are malformed, otherwise the image's width, height and its
/// RGBA pixel bytes in row-major order. The result depends on the bytes
/// alone.
pub uninterp spec fn decoded_png_rgba(data: Seq<u8>) -> Option<(u32, u32, Seq<u8>)>;

/// The decoded form of the embedded image: its dimensions in pixels and
/// its RGBA pixel bytes, four per pixel, in row-major order.
#[derive(Debug)]
pub struct Texture {
    pub width: u32,
    pub height: u32,
    pub pixels: Vec<u8>,
}

/// The mathematical value of a decode result.
pub open spec fn decoded_view(r: Option<(u32, u32, Vec<u8>)>) -> Option<(u32, u32, Seq<u8>)> {
    match r {
        Option::None => Option::None,
        Option::Some((w, h, p)) => Option::Some((w, h, p@)),
    }
}

/// Relies on image::load with the PNG format and DynamicImage::to_rgba:
/// the decoded image is a function of the input bytes alone, and the raw
/// buffer of an RGBA image holds exactly four bytes per pixel.
#[verifier::external_body]
fn decode_png_rgba(data: &Vec<u8>) -> (r: Option<(u32, u32, Vec<u8>)>)
    ensures
        decoded_view(r) == decoded_png_rgba(data@),
        r matches Some((w, h, p)) ==> p@.len() == w * h * 4,
{
    match image::load(std::io::Cursor::new(data.as_slice()), image::PNG) {
        Ok(img) => {
            let rgba = img.to_rgba();
            let (width, height) = rgba.dimensions();
            Some((width, height, rgba.into_raw()))
        }
        Err(_) => None,
    }
}

/// Decodes the embedded texture image. Returns `None` exactly where the
/// bytes are not a well-formed PNG; otherwise the texture holds the
/// decoded dimensions and the decoded pixels, four bytes per pixel.
///
/// The embedded image is build-time content, so the shell treats a failed
/// decode as a fatal setup error.
pub fn load_texture(data: &Vec<u8>) -> (t: Option<Texture>)
    ensures
        match decoded_png_rgba(data@) {
            Option::None => t is None,
            Option::Some((w, h, p)) => {
                &&& t matches Some(tex)
                &&& tex.width == w
                &&& tex.height == h
                &&& tex.pixels@ == p
                &&& tex.pixels@.len() == w * h * 4
            },
        },
{
    match decode_png_rgba(data) {
        Some((width, height, pixels)) => Some(Texture { width, height, pixels }),
        None => None,
    }
}

} // verus!
