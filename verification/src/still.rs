//! The still-image path: encoding one read-back frame as a PNG stream.
//! The caller writes the returned bytes to the screenshot file.

use vstd::prelude::*;

use crate::recorder::RecorderError;

verus! {

/// The PNG stream that encodes `pixels` as a `width` by `height` image in
/// blue-green-red-alpha order, eight bits per channel.
pub uninterp spec fn png_bgra(width: nat, height: nat, pixels: Seq<u8>) -> Seq<u8>;

/// Whether the PNG encoder accepts a `width` by `height` frame of `pixels`:
/// its verdict, like its output, depends on those arguments alone.
pub uninterp spec fn png_bgra_ok(width: nat, height: nat, pixels: Seq<u8>) -> bool;

#[verifier::external_type_specification]
#[verifier::external_body]
pub struct ExLodepngError(lodepng::Error);

/// Relies on lodepng::encode_memory: whether it succeeds, and the PNG
/// stream it produces, are functions of the pixel bytes, the dimensions,
/// the color type and the bit depth alone (memory exhaustion, which the
/// encoder would report as an error value, is not modeled).  The exact
/// byte size is demanded because the library asserts it on mismatch in
/// debug builds, and the pixel count is capped because the encoder
/// multiplies the dimensions in a thirty-two-bit register on one of its
/// color-analysis paths, which overflows past that cap.
#[verifier::external_body]
fn lodepng_encode_bgra(pixels: &[u8], width: usize, height: usize) -> (r: Result<
    Vec<u8>,
    lodepng::Error,
>)
    requires
        pixels@.len() == 4 * width * height,
        width * height <= u32::MAX,
    ensures
        r is Ok <==> png_bgra_ok(width as nat, height as nat, pixels@),
        r matches Ok(png) ==> png@ == png_bgra(width as nat, height as nat, pixels@),
{
    lodepng::encode_memory(pixels, width, height, lodepng::ColorType::BGRA, 8)
}

/// Encodes one frame of blue-green-red-alpha pixel bytes as a PNG image.
/// It succeeds exactly when the encoder accepts the frame; a failure is
/// reported as the library's screenshot error, never as a fault of the
/// host loop.
pub fn encode_screenshot(pixels: &[u8], width: usize, height: usize) -> (r: Result<
    Vec<u8>,
    RecorderError,
>)
    requires
        pixels@.len() == 4 * width * height,
        width * height <= u32::MAX,
    ensures
        r is Ok <==> png_bgra_ok(width as nat, height as nat, pixels@),
        r matches Ok(png) ==> png@ == png_bgra(width as nat, height as nat, pixels@),
        r matches Err(e) ==> e == RecorderError::ScreenshotEncode,
{
    match lodepng_encode_bgra(pixels, width, height) {
        Ok(png) => Ok(png),
        Err(_) => Err(RecorderError::ScreenshotEncode),
    }
}

} // verus!
