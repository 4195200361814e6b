//! Decoding encoded images into RGBA8 pixels, and an image loader that
//! serves one held image.

use vstd::prelude::*;
use crate::error::RenderError;
use crate::gateways::{ImageLoaderGateway, ImageLoaderGatewayResult};
use crate::texture::rgba_byte_count;

verus! {

/// What decoding a byte sequence as an image yields: the RGBA8 pixels with
/// their dimensions, or nothing when the bytes decode as no supported image.
/// The outcome is a function of the bytes alone.
pub uninterp spec fn rgba_decoding(bytes: Seq<u8>) -> Option<(Seq<u8>, u32, u32)>;

/// Relies on image::load_from_memory and DynamicImage::to_rgba8: the decoded
/// image is a function of the input bytes alone, and the RGBA8 conversion
/// yields exactly four bytes per pixel of the decoded dimensions.
#[verifier::external_body]
fn decode_rgba_image(bytes: &Vec<u8>) -> (r: Result<(Vec<u8>, u32, u32), RenderError>)
    ensures
        (match r {
            Ok((pix, w, h)) => rgba_decoding(bytes@) == Some((pix@, w, h)) && pix@.len()
                == rgba_byte_count(w, h),
            Err(e) => e == RenderError::TextureDecodeFailed && rgba_decoding(bytes@) is None,
        }),
{
    match image::load_from_memory(bytes.as_slice()) {
        Ok(img) => {
            let rgba = img.to_rgba8();
            let width = rgba.width();
            let height = rgba.height();
            Ok((rgba.into_raw(), width, height))
        },
        Err(_) => Err(RenderError::TextureDecodeFailed),
    }
}

/// Decodes encoded image bytes into an image loader's result: RGBA8 pixels
/// and their dimensions, four bytes per pixel; bytes that decode as no
/// supported image are a decode failure.
pub fn decode_image_bytes(bytes: &Vec<u8>) -> (r: Result<ImageLoaderGatewayResult, RenderError>)
    ensures
        r is Ok <==> rgba_decoding(bytes@) is Some,
        r matches Ok(res) ==> rgba_decoding(bytes@) == Some(
            (res.data@, res.dimensions.0, res.dimensions.1),
        ) && res.data@.len() == rgba_byte_count(res.dimensions.0, res.dimensions.1),
        r matches Err(e) ==> e == RenderError::TextureDecodeFailed,
{
    match decode_rgba_image(bytes) {
        Ok((pixels, width, height)) => Ok(
            ImageLoaderGatewayResult { data: pixels, dimensions: (width, height) },
        ),
        Err(e) => Err(e),
    }
}

/// An image loader that decodes one image it was handed at construction,
/// whatever identifier it is asked for.
pub struct ImageCrateImageLoaderAdapter {
    pub image_bytes: Vec<u8>,
}

impl ImageCrateImageLoaderAdapter {
    /// A loader serving the given encoded image bytes.
    pub fn new(image_bytes: Vec<u8>) -> (r: ImageCrateImageLoaderAdapter)
        ensures
            r.image_bytes@ == image_bytes@,
    {
        ImageCrateImageLoaderAdapter { image_bytes }
    }

    /// Decodes the held image.
    pub fn load_held_image(&self) -> (r: Result<ImageLoaderGatewayResult, RenderError>)
        ensures
            r is Ok <==> rgba_decoding(self.image_bytes@) is Some,
            r matches Ok(res) ==> rgba_decoding(self.image_bytes@) == Some(
                (res.data@, res.dimensions.0, res.dimensions.1),
            ) && res.data@.len() == rgba_byte_count(res.dimensions.0, res.dimensions.1),
            r matches Err(e) ==> e == RenderError::TextureDecodeFailed,
    {
        decode_image_bytes(&self.image_bytes)
    }
}

impl ImageLoaderGateway for ImageCrateImageLoaderAdapter {
    fn load_sync(&self, _id: &str) -> Result<ImageLoaderGatewayResult, RenderError> {
        self.load_held_image()
    }
}

} // verus!
