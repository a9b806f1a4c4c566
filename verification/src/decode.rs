//! Decoding of encoded images, which is left to the `image` crate.

use image::DynamicImage;
use image::ImageError;
use image::ImageFormat;
use vstd::prelude::*;

verus! {

/// A decoded image of any pixel layout.
#[verifier::external_type_specification]
#[verifier::external_body]
pub struct ExDynamicImage(DynamicImage);

/// Why an image could not be decoded.
#[verifier::external_type_specification]
#[verifier::external_body]
pub struct ExImageError(ImageError);

/// An encoding of images that the decoder knows.
#[verifier::external_type_specification]
#[verifier::external_body]
pub struct ExImageFormat(ImageFormat);

/// Tells the encoding of an image from the bytes it begins with, by
/// `image::guess_format`, which holds them against the signatures built
/// into the decoder. Nothing is claimed of the result.
#[verifier::external_body]
pub(crate) fn guess_format(encoded: &Vec<u8>) -> (r: Result<ImageFormat, ImageError>) {
    image::guess_format(encoded.as_slice())
}

/// Decodes an image of a known encoding with
/// `image::load_from_memory_with_format`. Nothing is claimed of the result:
/// what it is for given data is left open.
#[verifier::external_body]
pub(crate) fn load_from_memory_with_format(encoded: &Vec<u8>, format: ImageFormat) -> (r: Result<
    DynamicImage,
    ImageError,
>) {
    image::load_from_memory_with_format(encoded.as_slice(), format)
}

/// Width, height and pixels of an image as RGBA8, by
/// `DynamicImage::to_rgba8` and, of the buffer it returns, `width`, `height`
/// and `into_raw`. Nothing is claimed of the result: the pixels are counted
/// by whoever uses them.
#[verifier::external_body]
pub(crate) fn to_rgba8(image: &DynamicImage) -> (r: (u32, u32, Vec<u8>)) {
    let rgba = image.to_rgba8();
    (rgba.width(), rgba.height(), rgba.into_raw())
}

} // verus!
