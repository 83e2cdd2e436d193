use vstd::prelude::*;

use crate::conversions::Colorspace;
use zune_image::codecs::qoi::zune_core::bytestream::ZCursor;
use zune_image::codecs::qoi::zune_core::colorspace::ColorSpace;
use zune_image::codecs::qoi::zune_core::options::DecoderOptions;

verus! {

#[verifier::external_type_specification]
#[verifier::external_body]
pub struct ExZuneImage(zune_image::image::Image);

#[verifier::external_type_specification]
#[verifier::external_body]
pub struct ExZuneImageErrors(zune_image::errors::ImageErrors);

/// Relies on zune_image's `Image::read`: decoding a byte buffer with the
/// default decoder options yields the image it encodes, or an error for
/// bytes no decoder accepts.
#[verifier::external_body]
pub(crate) fn decode_image(buffer: &[u8]) -> (r: Result<
    zune_image::image::Image,
    zune_image::errors::ImageErrors,
>) {
    zune_image::image::Image::read(ZCursor::new(buffer), DecoderOptions::default())
}

/// Relies on zune_image's `Image::dimensions`: the decoded image's width
/// and height in pixels, in that order.
#[verifier::external_body]
pub(crate) fn image_dimensions(image: &zune_image::image::Image) -> (r: (usize, usize)) {
    image.dimensions()
}

/// Relies on zune_image's `Image::colorspace`, telling its variants apart:
/// each supported colorspace maps to this library's tag of the same name,
/// and anything else comes back as `None`.
#[verifier::external_body]
pub(crate) fn image_colorspace(image: &zune_image::image::Image) -> (r: Option<Colorspace>) {
    match image.colorspace() {
        ColorSpace::Luma => Some(Colorspace::Luma),
        ColorSpace::LumaA => Some(Colorspace::LumaA),
        ColorSpace::RGB => Some(Colorspace::Rgb),
        ColorSpace::RGBA => Some(Colorspace::Rgba),
        ColorSpace::YCCK => Some(Colorspace::Ycck),
        ColorSpace::CMYK => Some(Colorspace::Cmyk),
        ColorSpace::BGR => Some(Colorspace::Bgr),
        ColorSpace::BGRA => Some(Colorspace::Bgra),
        ColorSpace::ARGB => Some(Colorspace::Argb),
        ColorSpace::HSL => Some(Colorspace::Hsl),
        ColorSpace::HSV => Some(Colorspace::Hsv),
        _ => None,
    }
}

/// Relies on zune_image's `Image::flatten_to_u8`: the image's frames as
/// flat, row-major, interleaved 8-bit samples, concatenated in frame
/// order.
#[verifier::external_body]
pub(crate) fn image_flatten(image: &zune_image::image::Image) -> (r: Vec<u8>) {
    image.flatten_to_u8().into_iter().flatten().collect()
}

} // verus!
