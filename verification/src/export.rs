//! The offscreen export path: staging-buffer sizing and the encoding of a
//! captured frame into an image file's bytes. Writing the bytes to disk is
//! the host's single remaining step.

use vstd::prelude::*;
use crate::error::RenderError;
use crate::size::Dimensions;
use crate::texture::rgba_byte_count;

verus! {

/// Bytes per RGBA8 pixel.
pub const BYTES_PER_PIXEL: u64 = 4;

/// How an offscreen target's staging buffer is laid out: one row of pixels
/// per row of the texture, four bytes per pixel, rows packed tightly.
pub struct StagingBufferLayout {
    pub bytes_per_row: u64,
    pub buffer_size: u64,
}

/// The staging-buffer layout for an offscreen target of the given size:
/// `4 * width` bytes per row and `4 * width * height` bytes in all. A size
/// whose byte count exceeds the address range of a buffer yields nothing.
pub fn staging_buffer_layout(size: &Dimensions) -> (r: Option<StagingBufferLayout>)
    ensures
        rgba_byte_count(size.width, size.height) <= u64::MAX ==> (r matches Some(l)
            && l.bytes_per_row == 4 * (size.width as int) && l.buffer_size == rgba_byte_count(
            size.width,
            size.height,
        )),
        rgba_byte_count(size.width, size.height) > u64::MAX ==> r is None,
{
    let w64: u64 = size.width as u64;
    let h64: u64 = size.height as u64;
    proof {
        assert(w64 * h64 <= 0xffff_ffffu64 * 0xffff_ffffu64) by (nonlinear_arith)
            requires
                w64 <= 0xffff_ffffu64,
                h64 <= 0xffff_ffffu64,
        ;
    }
    let wh: u64 = w64 * h64;
    if wh > u64::MAX / 4 {
        return None;
    }
    Some(StagingBufferLayout { bytes_per_row: BYTES_PER_PIXEL * w64, buffer_size: BYTES_PER_PIXEL * wh })
}

/// What encoding RGBA8 pixels of the given dimensions as a PNG image yields.
/// The outcome is a function of the pixels and dimensions alone.
pub uninterp spec fn png_encoding(pixels: Seq<u8>, width: u32, height: u32) -> Seq<u8>;

/// Relies on image::codecs::png::PngEncoder::write_image: encoding RGBA8
/// pixels to an in-memory PNG is a function of the pixels and dimensions
/// alone. `write_image` panics unless the buffer holds exactly four bytes
/// per pixel, so that is required here. With both dimensions non-zero the
/// call succeeds: its size check is discharged by the same requirement, the
/// PNG writer rejects only a zero width or height, and writing into a
/// `Vec` cannot fail.
#[verifier::external_body]
fn encode_rgba_png(pixels: &Vec<u8>, width: u32, height: u32) -> (r: Result<Vec<u8>, RenderError>)
    requires
        pixels@.len() == rgba_byte_count(width, height),
    ensures
        width > 0 && height > 0 ==> r is Ok,
        r matches Ok(bytes) ==> bytes@ == png_encoding(pixels@, width, height),
        r matches Err(e) ==> e == RenderError::FileWriteFailed,
{
    let mut out: Vec<u8> = Vec::new();
    let encoder = image::codecs::png::PngEncoder::new(&mut out);
    match image::ImageEncoder::write_image(
        encoder,
        pixels.as_slice(),
        width,
        height,
        image::ExtendedColorType::Rgba8,
    ) {
        Ok(()) => Ok(out),
        Err(_) => Err(RenderError::FileWriteFailed),
    }
}

/// Encodes the pixels read back from an offscreen target into the bytes of
/// the exported image file: a PNG of exactly the target's dimensions. A
/// readback whose byte count does not match the target's size is a failed
/// export; a matching readback of a target with non-zero sides always
/// encodes. Nothing is encoded partially.
pub fn encode_offscreen_pixels(pixels: &Vec<u8>, size: &Dimensions) -> (r: Result<
    Vec<u8>,
    RenderError,
>)
    ensures
        size.is_valid() && pixels@.len() == rgba_byte_count(size.width, size.height) ==> r is Ok,
        pixels@.len() == rgba_byte_count(size.width, size.height) ==> (match r {
            Ok(bytes) => bytes@ == png_encoding(pixels@, size.width, size.height),
            Err(e) => e == RenderError::FileWriteFailed,
        }),
        pixels@.len() != rgba_byte_count(size.width, size.height) ==> r == Err::<
            Vec<u8>,
            RenderError,
        >(RenderError::FileWriteFailed),
{
    let w64: u64 = size.width as u64;
    let h64: u64 = size.height as u64;
    proof {
        assert(w64 * h64 <= 0xffff_ffffu64 * 0xffff_ffffu64) by (nonlinear_arith)
            requires
                w64 <= 0xffff_ffffu64,
                h64 <= 0xffff_ffffu64,
        ;
    }
    let wh: u64 = w64 * h64;
    let n: usize = pixels.len();
    if wh > u64::MAX / 4 {
        return Err(RenderError::FileWriteFailed);
    }
    if (n as u64) != 4 * wh {
        return Err(RenderError::FileWriteFailed);
    }
    encode_rgba_png(pixels, size.width, size.height)
}

} // verus!
