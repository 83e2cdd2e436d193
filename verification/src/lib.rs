mod conversions;
mod errors;
mod image;
mod luma;
mod quantize;
mod decode;
mod ramp;
mod render;
mod state;

pub use conversions::{
    channels_of_layout, colorspace_to_pixel, pixel_to_colorspace, resize_image, ChannelLayout,
    Colorspace,
};
pub use errors::RenderError;
pub use image::{ImageRepr, ImgDimensions};
pub use luma::{lemma_luma_bound, lemma_luma_deterministic, luma_spec, luma_value};
pub use quantize::{
    lemma_quantize_monotone, lemma_ramp_index_in_range, quantize_spec, ramp_index_spec,
};
pub use ramp::{
    default_texture, default_texture_spec, mixed_texture, mixed_texture_spec, unicode_texture,
    unicode_texture_spec,
};
pub use render::{
    cell_chars, count_char, lemma_cells_keep_ramp_chars, lemma_count_char_concat,
    lemma_count_char_zero, lemma_render_stable,
    lemma_rendered_shape, lemma_wrap_rows_len, lemma_wrap_rows_lines, lemma_wrap_rows_newlines,
    luma_seq, rendered_spec,
    wrap_rows, grid_cell, wrapped_cell,
};
pub use state::{
    lemma_aspect_preserved, requested_target_spec, resize_dims_spec, resized_matches, AppState,
    ASCII_SIZE,
};
