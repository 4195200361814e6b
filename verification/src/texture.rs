//! Validated texture data: RGBA8 pixels whose byte count matches their
//! dimensions.

use vstd::prelude::*;
use crate::error::RenderError;
use crate::gateways::{ImageLoaderGateway, ImageLoaderGatewayResult};

verus! {

/// A decoded texture the core vouches for: RGBA8 pixel bytes in row-major
/// order, exactly four bytes per pixel of the stated dimensions.
pub struct TextureData {
    pub pixels: Vec<u8>,
    pub width: u32,
    pub height: u32,
}

/// The byte count of an RGBA8 image of the given dimensions: four bytes per
/// pixel.
pub open spec fn rgba_byte_count(width: u32, height: u32) -> int {
    4 * ((width as int) * (height as int))
}

impl TextureData {
    /// The byte count matches the dimensions: four bytes per pixel.
    pub open spec fn wf(self) -> bool {
        self.pixels@.len() == rgba_byte_count(self.width, self.height)
    }
}

/// Accepts an image loader's result as texture data, rejecting as a decode
/// failure any result whose byte count does not match its dimensions.
pub fn texture_from_gateway(res: ImageLoaderGatewayResult) -> (r: Result<
    TextureData,
    RenderError,
>)
    ensures
        res.data@.len() == rgba_byte_count(res.dimensions.0, res.dimensions.1) ==> (
        r matches Ok(t) && t.pixels@ == res.data@ && t.width == res.dimensions.0 && t.height
            == res.dimensions.1 && t.wf()),
        res.data@.len() != rgba_byte_count(res.dimensions.0, res.dimensions.1) ==> r == Err::<
            TextureData,
            RenderError,
        >(RenderError::TextureDecodeFailed),
{
    let (width, height) = res.dimensions;
    let w64: u64 = width as u64;
    let h64: u64 = height as u64;
    proof {
        assert(w64 * h64 <= 0xffff_ffffu64 * 0xffff_ffffu64) by (nonlinear_arith)
            requires
                w64 <= 0xffff_ffffu64,
                h64 <= 0xffff_ffffu64,
        ;
    }
    let wh: u64 = w64 * h64;
    let n: usize = res.data.len();
    proof {
        assert(n <= usize::MAX);
        assert(usize::MAX <= u64::MAX);
    }
    if wh > u64::MAX / 4 {
        // Four bytes per pixel would exceed every possible buffer length.
        return Err(RenderError::TextureDecodeFailed);
    }
    let expected: u64 = 4 * wh;
    if (n as u64) != expected {
        return Err(RenderError::TextureDecodeFailed);
    }
    Ok(TextureData { pixels: res.data, width, height })
}

/// Loads a texture through an image loader and vouches for the result:
/// whatever came back is validated against its own dimensions. Any failure
/// of the loader, and any result whose byte count disagrees with its
/// dimensions, is treated as `TextureDecodeFailed`.
pub fn load_texture<G: ImageLoaderGateway>(gateway: &G, id: &str) -> (r: Result<
    TextureData,
    RenderError,
>)
    ensures
        r matches Ok(t) ==> t.wf(),
        r matches Err(e) ==> e == RenderError::TextureDecodeFailed,
{
    match gateway.load_sync(id) {
        Ok(res) => texture_from_gateway(res),
        Err(_) => Err(RenderError::TextureDecodeFailed),
    }
}

} // verus!
