use ch_ar_t::{
    colorspace_to_pixel, luma_value, pixel_to_colorspace, resize_image, AppState, ChannelLayout,
    Colorspace, ImageRepr, ImgDimensions, RenderError,
};

fn gray_state(texture: Vec<char>) -> AppState {
    AppState {
        og_image: ImageRepr {
            pixels: vec![0; 2 * 2],
            dimensions: ImgDimensions { width: 2, height: 2 },
            colorspace: Colorspace::Luma,
        },
        resized_image: None,
        ascii_size: 8,
        texture,
    }
}

#[test]
fn luma_of_white_truncates_to_254() {
    assert_eq!(luma_value(255, 255, 255), 254);
}

#[test]
fn luma_of_black_is_zero() {
    assert_eq!(luma_value(0, 0, 0), 0);
}

#[test]
fn luma_is_deterministic() {
    for &(r, g, b) in &[(10, 20, 30), (200, 0, 255), (77, 77, 77)] {
        assert_eq!(luma_value(r, g, b), luma_value(r, g, b));
    }
}

#[test]
fn luma_exact_weighting() {
    // 0.2126 * 100 + 0.7152 * 50 + 0.0722 * 25 = 58.8, truncated.
    assert_eq!(luma_value(100, 50, 25), 58);
    assert_eq!(luma_value(100, 100, 100), 100);
}

#[test]
fn colorspace_layout_mapping() {
    assert_eq!(colorspace_to_pixel(Colorspace::Luma), ChannelLayout::C1);
    assert_eq!(colorspace_to_pixel(Colorspace::LumaA), ChannelLayout::C2);
    assert_eq!(colorspace_to_pixel(Colorspace::Rgb), ChannelLayout::C3);
    assert_eq!(colorspace_to_pixel(Colorspace::Bgr), ChannelLayout::C3);
    assert_eq!(colorspace_to_pixel(Colorspace::Hsl), ChannelLayout::C3);
    assert_eq!(colorspace_to_pixel(Colorspace::Hsv), ChannelLayout::C3);
    assert_eq!(colorspace_to_pixel(Colorspace::Rgba), ChannelLayout::C4);
    assert_eq!(colorspace_to_pixel(Colorspace::Bgra), ChannelLayout::C4);
    assert_eq!(colorspace_to_pixel(Colorspace::Argb), ChannelLayout::C4);
    assert_eq!(colorspace_to_pixel(Colorspace::Cmyk), ChannelLayout::C4);
    assert_eq!(colorspace_to_pixel(Colorspace::Ycck), ChannelLayout::C4);
}

#[test]
fn layout_colorspace_round_trip() {
    for layout in [
        ChannelLayout::C1,
        ChannelLayout::C2,
        ChannelLayout::C3,
        ChannelLayout::C4,
    ] {
        assert_eq!(colorspace_to_pixel(pixel_to_colorspace(layout)), layout);
    }
}

#[test]
fn quantized_levels_are_monotone() {
    let state = gray_state(ch_ar_t::default_texture());
    let mut last = 0u32;
    for value in 0..=255u8 {
        let level = state.quantized_level(value);
        assert!(level >= last);
        assert!(level <= 8);
        last = level;
    }
}

#[test]
fn quantized_level_values() {
    // Nine ramp entries give a bin width of 255 / 9 = 28.
    let state = gray_state(ch_ar_t::default_texture());
    assert_eq!(state.quantized_level(0), 0);
    assert_eq!(state.quantized_level(27), 0);
    assert_eq!(state.quantized_level(28), 0);
    assert_eq!(state.quantized_level(56), 1);
    assert_eq!(state.quantized_level(254), 8);
    assert_eq!(state.quantized_level(255), 8);
}

#[test]
fn render_before_resize_is_an_error() {
    let state = gray_state(ch_ar_t::default_texture());
    assert_eq!(
        state.apply_texture().unwrap_err(),
        RenderError::ResizeNotPerformed
    );
    assert_eq!(
        state.to_luma().unwrap_err(),
        RenderError::ResizeNotPerformed
    );
}

#[test]
fn too_few_channels_is_an_error() {
    let mut state = gray_state(ch_ar_t::default_texture());
    state.resized_image = Some(ImageRepr {
        pixels: vec![0; 2 * 2],
        dimensions: ImgDimensions { width: 2, height: 2 },
        colorspace: Colorspace::Luma,
    });
    assert_eq!(
        state.apply_texture().unwrap_err(),
        RenderError::ChannelReinterpretFailure
    );
}

#[test]
fn resize_image_output_shape() {
    let src = ImageRepr {
        pixels: vec![120; 4 * 4 * 3],
        dimensions: ImgDimensions { width: 4, height: 4 },
        colorspace: Colorspace::Rgb,
    };
    let out = resize_image(&src, 2, 2).unwrap();
    assert_eq!(out.pixels.len(), 2 * 2 * 3);
    assert_eq!(out.dimensions.width, 2);
    assert_eq!(out.dimensions.height, 2);
    assert_eq!(out.colorspace, Colorspace::Rgb);
}

#[test]
fn resize_image_rejects_zero_axis() {
    let src = ImageRepr {
        pixels: vec![120; 4 * 4 * 3],
        dimensions: ImgDimensions { width: 4, height: 4 },
        colorspace: Colorspace::Rgb,
    };
    assert_eq!(
        resize_image(&src, 0, 2).unwrap_err(),
        RenderError::DimensionUnderflow
    );
    assert_eq!(
        resize_image(&src, 2, 0).unwrap_err(),
        RenderError::DimensionUnderflow
    );
}

#[test]
fn texture_ramps_have_expected_sizes() {
    assert_eq!(ch_ar_t::default_texture().len(), 9);
    assert_eq!(ch_ar_t::unicode_texture().len(), 5);
    assert_eq!(ch_ar_t::mixed_texture().len(), 11);
}
