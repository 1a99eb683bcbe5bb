use vstd::prelude::*;

verus! {

/// `image::ImageError`, why the `image` crate could not decode an image.
#[verifier::external_type_specification]
#[verifier::external_body]
pub struct ExImageError(image::ImageError);

/// `image::load_from_memory` followed by the RGBA8 conversion the image is
/// handed on with (`DynamicImage::into_rgba8`, then `width`, `height` and
/// `into_raw`). Which format is guessed and whether it decodes depends on the
/// bytes and on the format hooks registered in the process, so no outcome is
/// tied to the bytes. What holds of every success: an `ImageBuffer` only exists
/// with a buffer of at least `4 * width * height` bytes for RGBA8 pixels
/// (`from_raw` refuses a smaller one, and a converted image is allocated at
/// that size).
#[verifier::external_body]
fn decode_rgba(bytes: &[u8]) -> (r: Result<(u32, u32, Vec<u8>), image::ImageError>)
    ensures
        r matches Ok((w, h, px)) ==> px@.len() >= 4 * w * h,
{
    match image::load_from_memory(bytes) {
        Ok(decoded) => {
            let rgba = decoded.into_rgba8();
            Ok((rgba.width(), rgba.height(), rgba.into_raw()))
        },
        Err(e) => Err(e),
    }
}

/// The image of an asset file, as RGBA8 width, height and pixels row by row:
/// an image only where the file was found and its bytes decode, nothing for a
/// missing file or bytes that decode to no image.
pub fn load_image_data(file: Option<Vec<u8>>) -> (r: Option<(u32, u32, Vec<u8>)>)
    ensures
        file is None ==> r is None,
        r matches Some((w, h, px)) ==> file is Some && px@.len() >= 4 * w * h,
{
    match file {
        None => None,
        Some(bytes) => match decode_rgba(bytes.as_slice()) {
            Ok((w, h, px)) => Some((w, h, px)),
            Err(_) => None,
        },
    }
}

} // verus!
