use vstd::prelude::*;

use crate::errors::RenderError;
use crate::image::{ImageRepr, ImgDimensions};

verus! {

/// The colorspaces the pipeline accepts from the decoder. Channel
/// semantics (RGB vs BGR vs CMYK) are kept here; the resampler only
/// cares about the channel count.
#[derive(Clone, Copy, Debug, PartialEq, Eq, Structural)]
pub enum Colorspace {
    Luma,
    LumaA,
    Rgb,
    Rgba,
    Ycck,
    Cmyk,
    Bgr,
    Bgra,
    Argb,
    Hsl,
    Hsv,
}

/// How many 8-bit samples compose one pixel.
#[derive(Clone, Copy, Debug, PartialEq, Eq, Structural)]
pub enum ChannelLayout {
    C1,
    C2,
    C3,
    C4,
}

pub open spec fn channel_count(layout: ChannelLayout) -> int {
    match layout {
        ChannelLayout::C1 => 1,
        ChannelLayout::C2 => 2,
        ChannelLayout::C3 => 3,
        ChannelLayout::C4 => 4,
    }
}

/// The channel layout each supported colorspace decodes to.
pub open spec fn layout_of(colorspace: Colorspace) -> ChannelLayout {
    match colorspace {
        Colorspace::Luma => ChannelLayout::C1,
        Colorspace::LumaA => ChannelLayout::C2,
        Colorspace::Rgb => ChannelLayout::C3,
        Colorspace::Bgr => ChannelLayout::C3,
        Colorspace::Hsl => ChannelLayout::C3,
        Colorspace::Hsv => ChannelLayout::C3,
        Colorspace::Rgba => ChannelLayout::C4,
        Colorspace::Bgra => ChannelLayout::C4,
        Colorspace::Argb => ChannelLayout::C4,
        Colorspace::Ycck => ChannelLayout::C4,
        Colorspace::Cmyk => ChannelLayout::C4,
    }
}

/// Samples per pixel of a layout, as an executable count.
pub fn channels_of_layout(layout: ChannelLayout) -> (n: usize)
    ensures
        n == channel_count(layout),
        1 <= n <= 4,
{
    match layout {
        ChannelLayout::C1 => 1,
        ChannelLayout::C2 => 2,
        ChannelLayout::C3 => 3,
        ChannelLayout::C4 => 4,
    }
}

/// Maps a colorspace to the pixel layout the resampler works on.
pub fn colorspace_to_pixel(colorspace: Colorspace) -> (layout: ChannelLayout)
    ensures
        layout == layout_of(colorspace),
{
    match colorspace {
        Colorspace::Luma => ChannelLayout::C1,
        Colorspace::LumaA => ChannelLayout::C2,
        Colorspace::Rgb => ChannelLayout::C3,
        Colorspace::Bgr => ChannelLayout::C3,
        Colorspace::Hsl => ChannelLayout::C3,
        Colorspace::Hsv => ChannelLayout::C3,
        Colorspace::Rgba => ChannelLayout::C4,
        Colorspace::Bgra => ChannelLayout::C4,
        Colorspace::Argb => ChannelLayout::C4,
        Colorspace::Ycck => ChannelLayout::C4,
        Colorspace::Cmyk => ChannelLayout::C4,
    }
}

/// The canonical colorspace of each pixel layout, the inverse direction
/// of `colorspace_to_pixel` up to the layouts' representative spaces.
pub fn pixel_to_colorspace(layout: ChannelLayout) -> (colorspace: Colorspace)
    ensures
        colorspace == (match layout {
            ChannelLayout::C1 => Colorspace::Luma,
            ChannelLayout::C2 => Colorspace::LumaA,
            ChannelLayout::C3 => Colorspace::Rgb,
            ChannelLayout::C4 => Colorspace::Rgba,
        }),
        layout_of(colorspace) == layout,
{
    match layout {
        ChannelLayout::C1 => Colorspace::Luma,
        ChannelLayout::C2 => Colorspace::LumaA,
        ChannelLayout::C3 => Colorspace::Rgb,
        ChannelLayout::C4 => Colorspace::Rgba,
    }
}

/// The bytes the resampling filter produces for a given source buffer,
/// source and target geometry. The filter's output is a pure function of
/// these arguments; its exact values are the resampling algorithm's
/// concern, not this library's.
pub uninterp spec fn resample_spec(
    pixels: Seq<u8>,
    src_w: int,
    src_h: int,
    channels: int,
    dst_w: int,
    dst_h: int,
) -> Seq<u8>;

/// Relies on fast_image_resize's `Resizer::resize` with its default
/// convolution filter: resizing an interleaved 8-bit buffer fills a
/// destination buffer of exactly `dst_w * dst_h` pixels of the same
/// layout, and the result depends only on the arguments.
#[verifier::external_body]
fn resample(
    pixels: &Vec<u8>,
    src_w: usize,
    src_h: usize,
    layout: ChannelLayout,
    dst_w: usize,
    dst_h: usize,
) -> (out: Vec<u8>)
    requires
        0 < src_w <= 0xFFFF_FFFF,
        0 < src_h <= 0xFFFF_FFFF,
        0 < dst_w <= 0xFFFF_FFFF,
        0 < dst_h <= 0xFFFF_FFFF,
        pixels@.len() == src_w * src_h * channel_count(layout),
    ensures
        out@.len() == dst_w * dst_h * channel_count(layout),
        out@ == resample_spec(
            pixels@,
            src_w as int,
            src_h as int,
            channel_count(layout),
            dst_w as int,
            dst_h as int,
        ),
{
    let pixel_type = match layout {
        ChannelLayout::C1 => fast_image_resize::PixelType::U8,
        ChannelLayout::C2 => fast_image_resize::PixelType::U8x2,
        ChannelLayout::C3 => fast_image_resize::PixelType::U8x3,
        ChannelLayout::C4 => fast_image_resize::PixelType::U8x4,
    };
    let src =
        fast_image_resize::images::Image::from_vec_u8(
            src_w as u32, src_h as u32, pixels.clone(), pixel_type).unwrap();
    let mut dst =
        fast_image_resize::images::Image::new(dst_w as u32, dst_h as u32, pixel_type);
    fast_image_resize::Resizer::new().resize(&src, &mut dst, None).unwrap();
    dst.into_vec()
}

/// Resizes an image to the requested grid, keeping its colorspace and
/// channel layout. A zero target axis, or one beyond the resampler's
/// 32-bit range, is reported as `DimensionUnderflow`.
pub fn resize_image(src: &ImageRepr, resize_width: usize, resize_height: usize) -> (r: Result<
    ImageRepr,
    RenderError,
>)
    requires
        src.wf(),
    ensures
        r is Ok <==> (0 < resize_width <= 0xFFFF_FFFF && 0 < resize_height <= 0xFFFF_FFFF),
        r matches Ok(img) ==> {
            &&& img.wf()
            &&& img.dimensions == (ImgDimensions { width: resize_width, height: resize_height })
            &&& img.colorspace == src.colorspace
            &&& img.pixels@ == resample_spec(
                src.pixels@,
                src.dimensions.width as int,
                src.dimensions.height as int,
                channel_count(layout_of(src.colorspace)),
                resize_width as int,
                resize_height as int,
            )
        },
        r matches Err(e) ==> e == RenderError::DimensionUnderflow,
{
    if resize_width == 0 || resize_height == 0 {
        return Err(RenderError::DimensionUnderflow);
    }
    if (resize_width as u64) > 0xFFFF_FFFFu64 || (resize_height as u64) > 0xFFFF_FFFFu64 {
        return Err(RenderError::DimensionUnderflow);
    }
    let layout = colorspace_to_pixel(src.colorspace);
    let out = resample(
        &src.pixels,
        src.dimensions.width,
        src.dimensions.height,
        layout,
        resize_width,
        resize_height,
    );
    Ok(
        ImageRepr {
            pixels: out,
            dimensions: ImgDimensions { width: resize_width, height: resize_height },
            colorspace: src.colorspace,
        },
    )
}

} // verus!
