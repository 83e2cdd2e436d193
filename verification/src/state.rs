use vstd::prelude::*;

use vstd::arithmetic::div_mod::{
    lemma_div_is_ordered, lemma_div_multiples_vanish, lemma_div_non_zero,
    lemma_fundamental_div_mod, lemma_mod_bound,
};

use crate::conversions::{
    channel_count, channels_of_layout, colorspace_to_pixel, layout_of, resample_spec, resize_image,
};
use crate::decode::{decode_image, image_colorspace, image_dimensions, image_flatten};
use crate::errors::RenderError;
use crate::image::{ImageRepr, ImgDimensions};
use crate::luma::{luma_spec, luma_value};
use crate::quantize::{lemma_ramp_index_in_range, quantize_spec, ramp_index_spec};
use crate::ramp::{chars_string, default_texture, default_texture_spec, str_chars};
use crate::render::{cell_chars, luma_seq, rendered_spec, wrap_rows};

verus! {

/// Reserved character cells subtracted from the target axis before the
/// render grid is computed.
pub const ASCII_SIZE: usize = 8;

/// Relies on term_size's `dimensions`: the terminal's size in character
/// cells, if it can be read. What comes back depends on the environment,
/// so nothing more is assumed of it.
#[verifier::external_body]
fn terminal_dimensions() -> (r: Option<(usize, usize)>) {
    term_size::dimensions()
}

/// The grid an image of `og_w` by `og_h` pixels is resized to, fitting a
/// target of `t_w` by `t_h` cells: the constrained axis (the wider one of
/// the image) takes the target axis minus the margin, the other follows
/// the image's aspect ratio by truncated division. `None` when the margin
/// leaves no room, or when an axis leaves the resampler's 32-bit range,
/// or when the derived axis truncates to zero.
pub open spec fn resize_dims_spec(og_w: int, og_h: int, t_w: int, t_h: int, margin: int) -> Option<
    (int, int),
> {
    if og_w > og_h {
        let new_w = t_w - margin;
        let new_h = new_w * og_h / og_w;
        if t_w > margin && new_w <= 0xFFFF_FFFF && new_h > 0 {
            Some((new_w, new_h))
        } else {
            None
        }
    } else {
        let new_h = t_h - margin;
        let new_w = new_h * og_w / og_h;
        if t_h > margin && new_h <= 0xFFFF_FFFF && new_w > 0 {
            Some((new_w, new_h))
        } else {
            None
        }
    }
}

/// Law (aspect preservation): whenever `resize_dims_spec` assigns a
/// grid, the constrained axis — the wider one of the image — equals the
/// target axis minus the margin exactly, and the other axis matches the
/// original aspect ratio to within integer rounding: cross-multiplying
/// the two dimension pairs agrees to within one step of the divisor.
pub proof fn lemma_aspect_preserved(og_w: int, og_h: int, t_w: int, t_h: int, margin: int)
    requires
        og_w >= 1,
        og_h >= 1,
        resize_dims_spec(og_w, og_h, t_w, t_h, margin) is Some,
    ensures
        ({
            let d = resize_dims_spec(og_w, og_h, t_w, t_h, margin)->Some_0;
            if og_w > og_h {
                &&& d.0 == t_w - margin
                &&& d.1 * og_w <= d.0 * og_h < (d.1 + 1) * og_w
            } else {
                &&& d.1 == t_h - margin
                &&& d.0 * og_h <= d.1 * og_w < (d.0 + 1) * og_h
            }
        }),
{
    if og_w > og_h {
        let nw = t_w - margin;
        let nh = nw * og_h / og_w;
        lemma_fundamental_div_mod(nw * og_h, og_w);
        lemma_mod_bound(nw * og_h, og_w);
        assert(og_w * nh == nh * og_w) by (nonlinear_arith);
        assert((nh + 1) * og_w == nh * og_w + og_w) by (nonlinear_arith);
    } else {
        let nh = t_h - margin;
        let nw = nh * og_w / og_h;
        lemma_fundamental_div_mod(nh * og_w, og_h);
        lemma_mod_bound(nh * og_w, og_h);
        assert(og_h * nw == nw * og_h) by (nonlinear_arith);
        assert((nw + 1) * og_h == nw * og_h + og_h) by (nonlinear_arith);
    }
}

/// The target grid a requested output width stands for: the height
/// follows from the image's truncated aspect ratio. `None` when the
/// aspect ratio truncates to zero (image taller than wide), which leaves
/// no height to derive.
pub open spec fn requested_target_spec(og_w: int, og_h: int, w: int) -> Option<(int, int)> {
    let aspect = og_w / og_h;
    if aspect == 0 {
        None
    } else {
        Some((w, w / aspect))
    }
}

/// The resized image holds exactly the resampling of the original to the
/// grid that `resize_dims_spec` assigns to the given target.
pub open spec fn resized_matches(
    og: ImageRepr,
    margin: int,
    resized: Option<ImageRepr>,
    t_w: int,
    t_h: int,
) -> bool {
    let og_w = og.dimensions.width as int;
    let og_h = og.dimensions.height as int;
    match resize_dims_spec(og_w, og_h, t_w, t_h, margin) {
        Some(d) => match resized {
            Some(img) => {
                &&& img.dimensions.width == d.0
                &&& img.dimensions.height == d.1
                &&& img.colorspace == og.colorspace
                &&& img.pixels@ == resample_spec(
                    og.pixels@,
                    og_w,
                    og_h,
                    channel_count(layout_of(og.colorspace)),
                    d.0,
                    d.1,
                )
            },
            None => false,
        },
        None => false,
    }
}

/// The rendering pipeline's state: the decoded image, the resized copy
/// once a resize has run, the margin, and the texture ramp.
#[derive(Debug)]
pub struct AppState {
    pub og_image: ImageRepr,
    pub resized_image: Option<ImageRepr>,
    pub ascii_size: usize,
    pub texture: Vec<char>,
}

impl AppState {
    /// The state's invariant: both images are well formed, the resized
    /// copy keeps the original's colorspace, and the texture ramp is
    /// non-empty and no longer than the luma scale it quantizes.
    pub open spec fn wf(self) -> bool {
        &&& self.og_image.wf()
        &&& match self.resized_image {
            Some(img) => img.wf() && img.colorspace == self.og_image.colorspace,
            None => true,
        }
        &&& 1 <= self.texture@.len() <= 255
    }

    /// Decodes the input bytes and builds a state around the image,
    /// resizing it once: to the grid the requested width stands for, or
    /// to the terminal's size when no width is requested.
    pub fn new(buffer: &[u8], resize_width: Option<usize>) -> (r: Result<AppState, RenderError>)
        ensures
            r matches Ok(st) ==> {
                &&& st.wf()
                &&& st.ascii_size == ASCII_SIZE
                &&& st.texture@ == default_texture_spec()
                &&& st.resized_image is Some
                &&& (resize_width matches Some(w) ==> match requested_target_spec(
                    st.og_image.dimensions.width as int,
                    st.og_image.dimensions.height as int,
                    w as int,
                ) {
                    Some(t) => resized_matches(
                        st.og_image,
                        ASCII_SIZE as int,
                        st.resized_image,
                        t.0,
                        t.1,
                    ),
                    None => false,
                })
            },
            r matches Err(e) ==> (e == RenderError::DecodeFailure
                || e == RenderError::UnsupportedColorspace || e == RenderError::DimensionUnderflow
                || e == RenderError::TerminalSizeUnavailable),
    {
        let image = match decode_image(buffer) {
            Ok(i) => i,
            Err(_) => {
                return Err(RenderError::DecodeFailure);
            },
        };
        let (width, height) = image_dimensions(&image);
        let colorspace = match image_colorspace(&image) {
            Some(c) => c,
            None => {
                return Err(RenderError::UnsupportedColorspace);
            },
        };
        let pixels = image_flatten(&image);
        if width == 0 || height == 0 {
            return Err(RenderError::DecodeFailure);
        }
        if (width as u64) > 0xFFFF_FFFFu64 || (height as u64) > 0xFFFF_FFFFu64 {
            return Err(RenderError::DecodeFailure);
        }
        let channels = channels_of_layout(colorspace_to_pixel(colorspace));
        proof {
            assert((width as int) * (height as int) <= 0xFFFF_FFFFint * 0xFFFF_FFFFint)
                by (nonlinear_arith)
                requires
                    0 <= width <= 0xFFFF_FFFF,
                    0 <= height <= 0xFFFF_FFFF,
            ;
            assert((width as int) * (height as int) * (channels as int) <= 0xFFFF_FFFFint
                * 0xFFFF_FFFFint * 4) by (nonlinear_arith)
                requires
                    0 <= (width as int) * (height as int) <= 0xFFFF_FFFFint * 0xFFFF_FFFFint,
                    0 <= channels <= 4,
            ;
        }
        if (pixels.len() as u128) != (width as u128) * (height as u128) * (channels as u128) {
            return Err(RenderError::DecodeFailure);
        }
        let og_image = ImageRepr { pixels, dimensions: ImgDimensions { width, height }, colorspace };
        AppState::from_image(og_image, resize_width)
    }

    /// Builds a state around an already decoded image and resizes it
    /// once, exactly as `new` does after decoding.
    pub fn from_image(og_image: ImageRepr, resize_width: Option<usize>) -> (r: Result<
        AppState,
        RenderError,
    >)
        requires
            og_image.wf(),
        ensures
            r matches Ok(st) ==> {
                &&& st.wf()
                &&& st.og_image == og_image
                &&& st.ascii_size == ASCII_SIZE
                &&& st.texture@ == default_texture_spec()
                &&& st.resized_image is Some
            },
            resize_width matches Some(w) ==> match requested_target_spec(
                og_image.dimensions.width as int,
                og_image.dimensions.height as int,
                w as int,
            ) {
                Some(t) => {
                    &&& (r is Ok <==> resize_dims_spec(
                        og_image.dimensions.width as int,
                        og_image.dimensions.height as int,
                        t.0,
                        t.1,
                        ASCII_SIZE as int,
                    ) is Some)
                    &&& (r matches Ok(st) ==> resized_matches(
                        og_image,
                        ASCII_SIZE as int,
                        st.resized_image,
                        t.0,
                        t.1,
                    ))
                    &&& (r is Err ==> r == Err::<AppState, RenderError>(
                        RenderError::DimensionUnderflow,
                    ))
                },
                None => r == Err::<AppState, RenderError>(RenderError::DimensionUnderflow),
            },
            r matches Err(e) ==> (e == RenderError::DimensionUnderflow
                || e == RenderError::TerminalSizeUnavailable),
    {
        let mut state = AppState {
            og_image,
            resized_image: None,
            ascii_size: ASCII_SIZE,
            texture: default_texture(),
        };
        let resize_dimensions: Option<ImgDimensions> = match resize_width {
            Some(w) => {
                let aspect_ratio = state.og_image.dimensions.width
                    / state.og_image.dimensions.height;
                if aspect_ratio == 0 {
                    return Err(RenderError::DimensionUnderflow);
                }
                Some(ImgDimensions { width: w, height: w / aspect_ratio })
            },
            None => None,
        };
        match state.resize(resize_dimensions) {
            Ok(()) => Ok(state),
            Err(e) => Err(e),
        }
    }

    /// Replaces the margin used by later resizes.
    pub fn set_pixel_size(&mut self, ascii_pixel_size: usize)
        ensures
            final(self).ascii_size == ascii_pixel_size,
            final(self).og_image == old(self).og_image,
            final(self).resized_image == old(self).resized_image,
            final(self).texture == old(self).texture,
    {
        self.ascii_size = ascii_pixel_size;
    }

    /// Replaces the texture ramp after validating it: the ramp must be
    /// non-empty and no longer than the luma scale, else the state keeps
    /// its ramp and the caller is told the ramp cannot index the levels.
    pub fn set_texture(&mut self, texture: &str) -> (r: Result<(), RenderError>)
        ensures
            final(self).og_image == old(self).og_image,
            final(self).resized_image == old(self).resized_image,
            final(self).ascii_size == old(self).ascii_size,
            r is Ok <==> 1 <= texture@.len() <= 255,
            r is Ok ==> final(self).texture@ == texture@,
            r is Err ==> final(self).texture == old(self).texture && r == Err::<(), RenderError>(
                RenderError::TextureIndexOutOfRange,
            ),
    {
        let chars = str_chars(texture);
        if chars.len() == 0 || chars.len() > 255 {
            return Err(RenderError::TextureIndexOutOfRange);
        }
        self.texture = chars;
        Ok(())
    }

    /// Resizes the original to the given target, or to the terminal's
    /// size when none is given; a missing terminal size is an error.
    fn resize(&mut self, dimensions: Option<ImgDimensions>) -> (r: Result<(), RenderError>)
        requires
            old(self).wf(),
        ensures
            final(self).og_image == old(self).og_image,
            final(self).texture == old(self).texture,
            final(self).ascii_size == old(self).ascii_size,
            final(self).wf(),
            dimensions matches Some(d) ==> {
                &&& (r is Ok <==> resize_dims_spec(
                    old(self).og_image.dimensions.width as int,
                    old(self).og_image.dimensions.height as int,
                    d.width as int,
                    d.height as int,
                    old(self).ascii_size as int,
                ) is Some)
                &&& (r is Ok ==> resized_matches(
                    old(self).og_image,
                    old(self).ascii_size as int,
                    final(self).resized_image,
                    d.width as int,
                    d.height as int,
                ))
                &&& (r is Err ==> r == Err::<(), RenderError>(RenderError::DimensionUnderflow)
                    && final(self).resized_image == old(self).resized_image)
            },
            dimensions is None ==> {
                &&& (r is Ok ==> final(self).resized_image is Some && exists|t_w: int, t_h: int|
                    resized_matches(
                        old(self).og_image,
                        old(self).ascii_size as int,
                        final(self).resized_image,
                        t_w,
                        t_h,
                    ))
                &&& (r is Err ==> final(self).resized_image == old(self).resized_image && (r == Err::<
                    (),
                    RenderError,
                >(RenderError::TerminalSizeUnavailable) || r == Err::<(), RenderError>(
                    RenderError::DimensionUnderflow,
                )))
            },
    {
        let out_dims = match dimensions {
            Some(d) => d,
            None => match terminal_dimensions() {
                Some((w, h)) => ImgDimensions { width: w, height: h },
                None => {
                    return Err(RenderError::TerminalSizeUnavailable);
                },
            },
        };
        self.resize_to_target(out_dims)
    }

    /// Resizes the original image to fit the given target grid, storing
    /// the resampled copy. Fails exactly when `resize_dims_spec` assigns
    /// the target no grid.
    pub fn resize_to_target(&mut self, target: ImgDimensions) -> (r: Result<(), RenderError>)
        requires
            old(self).wf(),
        ensures
            final(self).og_image == old(self).og_image,
            final(self).texture == old(self).texture,
            final(self).ascii_size == old(self).ascii_size,
            final(self).wf(),
            r is Ok <==> resize_dims_spec(
                old(self).og_image.dimensions.width as int,
                old(self).og_image.dimensions.height as int,
                target.width as int,
                target.height as int,
                old(self).ascii_size as int,
            ) is Some,
            r is Ok ==> resized_matches(
                old(self).og_image,
                old(self).ascii_size as int,
                final(self).resized_image,
                target.width as int,
                target.height as int,
            ),
            r is Err ==> r == Err::<(), RenderError>(RenderError::DimensionUnderflow)
                && final(self).resized_image == old(self).resized_image,
    {
        let og_w = self.og_image.dimensions.width;
        let og_h = self.og_image.dimensions.height;
        let margin = self.ascii_size;
        let resized_width: usize;
        let resized_height: usize;
        if og_w > og_h {
            if target.width <= margin {
                return Err(RenderError::DimensionUnderflow);
            }
            let new_width = target.width - margin;
            if (new_width as u64) > 0xFFFF_FFFFu64 {
                return Err(RenderError::DimensionUnderflow);
            }
            proof {
                assert((new_width as int) * (og_h as int) <= 0xFFFF_FFFFu64 * 0xFFFF_FFFFu64)
                    by (nonlinear_arith)
                    requires
                        0 <= new_width <= 0xFFFF_FFFFu64,
                        0 <= og_h <= 0xFFFF_FFFFu64,
                ;
            }
            let new_height_wide: u64 = (new_width as u64) * (og_h as u64) / (og_w as u64);
            proof {
                let nw = new_width as int;
                let ogw = og_w as int;
                let ogh = og_h as int;
                assert(nw * ogh <= nw * ogw) by (nonlinear_arith)
                    requires
                        ogh <= ogw,
                        nw >= 0,
                ;
                lemma_div_is_ordered(nw * ogh, nw * ogw, ogw);
                lemma_div_multiples_vanish(nw, ogw);
                assert(nw * ogw == ogw * nw) by (nonlinear_arith);
            }
            if new_height_wide == 0 {
                return Err(RenderError::DimensionUnderflow);
            }
            resized_width = new_width;
            resized_height = new_height_wide as usize;
        } else {
            if target.height <= margin {
                return Err(RenderError::DimensionUnderflow);
            }
            let new_height = target.height - margin;
            if (new_height as u64) > 0xFFFF_FFFFu64 {
                return Err(RenderError::DimensionUnderflow);
            }
            proof {
                assert((new_height as int) * (og_w as int) <= 0xFFFF_FFFFu64 * 0xFFFF_FFFFu64)
                    by (nonlinear_arith)
                    requires
                        0 <= new_height <= 0xFFFF_FFFFu64,
                        0 <= og_w <= 0xFFFF_FFFFu64,
                ;
            }
            let new_width_wide: u64 = (new_height as u64) * (og_w as u64) / (og_h as u64);
            proof {
                let nh = new_height as int;
                let ogw = og_w as int;
                let ogh = og_h as int;
                assert(nh * ogw <= nh * ogh) by (nonlinear_arith)
                    requires
                        ogw <= ogh,
                        nh >= 0,
                ;
                lemma_div_is_ordered(nh * ogw, nh * ogh, ogh);
                lemma_div_multiples_vanish(nh, ogh);
                assert(nh * ogh == ogh * nh) by (nonlinear_arith);
            }
            if new_width_wide == 0 {
                return Err(RenderError::DimensionUnderflow);
            }
            resized_width = new_width_wide as usize;
            resized_height = new_height;
        }
        match resize_image(&self.og_image, resized_width, resized_height) {
            Ok(img) => {
                self.resized_image = Some(img);
                Ok(())
            },
            Err(e) => Err(e),
        }
    }

    /// The quantized level of a luma value for the current ramp: the bin
    /// the value falls into, pulled down by one so the first bin lands on
    /// level zero.
    pub fn quantized_level(&self, value: u8) -> (r: u32)
        requires
            1 <= self.texture@.len() <= 255,
        ensures
            r == quantize_spec(value, self.texture@.len() as int),
    {
        let count: u32 = self.texture.len() as u32;
        let distance_bw_levels: u32 = 255 / count;
        proof {
            lemma_div_non_zero(255, count as int);
        }
        let level: u32 = (value as u32) / distance_bw_levels;
        if level >= 1 {
            level - 1
        } else {
            0
        }
    }

    /// The first three channel planes of the resized image, in row-major
    /// pixel order: for an RGB-leading layout, the red, green and blue
    /// planes. Fails when no resize has run, or when the layout has fewer
    /// than three channels.
    pub fn resized_rgb_channels(&self) -> (r: Result<(Vec<u8>, Vec<u8>, Vec<u8>), RenderError>)
        requires
            self.wf(),
        ensures
            match self.resized_image {
                None => r == Err::<(Vec<u8>, Vec<u8>, Vec<u8>), RenderError>(
                    RenderError::ResizeNotPerformed,
                ),
                Some(img) => {
                    let cc = channel_count(layout_of(img.colorspace));
                    let n = img.dimensions.width * img.dimensions.height;
                    if cc < 3 {
                        r == Err::<(Vec<u8>, Vec<u8>, Vec<u8>), RenderError>(
                            RenderError::ChannelReinterpretFailure,
                        )
                    } else {
                        r matches Ok(chs) && {
                            &&& chs.0@.len() == n
                            &&& chs.1@.len() == n
                            &&& chs.2@.len() == n
                            &&& forall|j: int|
                                0 <= j < n ==> chs.0@[j] == img.pixels@[cc * j] && chs.1@[j]
                                    == img.pixels@[cc * j + 1] && chs.2@[j] == img.pixels@[cc * j
                                    + 2]
                        }
                    }
                },
            },
    {
        let img = match &self.resized_image {
            Some(i) => i,
            None => {
                return Err(RenderError::ResizeNotPerformed);
            },
        };
        let cc = channels_of_layout(colorspace_to_pixel(img.colorspace));
        if cc < 3 {
            return Err(RenderError::ChannelReinterpretFailure);
        }
        let total = img.pixels.len();
        proof {
            assert((img.dimensions.width as int) * (img.dimensions.height as int) <= (
            img.dimensions.width as int) * (img.dimensions.height as int) * (cc as int))
                by (nonlinear_arith)
                requires
                    cc >= 1,
                    img.dimensions.width >= 0,
                    img.dimensions.height >= 0,
            ;
        }
        let n = img.dimensions.width * img.dimensions.height;
        let mut red: Vec<u8> = Vec::new();
        let mut green: Vec<u8> = Vec::new();
        let mut blue: Vec<u8> = Vec::new();
        let mut i: usize = 0;
        while i < n
            invariant
                i <= n,
                3 <= cc <= 4,
                cc == channel_count(layout_of(img.colorspace)),
                n == img.dimensions.width * img.dimensions.height,
                img.pixels@.len() == n * cc,
                n * cc <= usize::MAX,
                red@.len() == i,
                green@.len() == i,
                blue@.len() == i,
                forall|j: int|
                    0 <= j < i ==> red@[j] == img.pixels@[cc * j] && green@[j] == img.pixels@[cc * j
                        + 1] && blue@[j] == img.pixels@[cc * j + 2],
            decreases n - i,
        {
            proof {
                assert((i as int) * (cc as int) + 2 < (n as int) * (cc as int))
                    by (nonlinear_arith)
                    requires
                        i < n,
                        cc >= 3,
                ;
            }
            let base = i * cc;
            red.push(img.pixels[base]);
            green.push(img.pixels[base + 1]);
            blue.push(img.pixels[base + 2]);
            i += 1;
        }
        Ok((red, green, blue))
    }

    /// The luma of every pixel of the resized image, row major.
    pub fn to_luma(&self) -> (r: Result<Vec<u8>, RenderError>)
        requires
            self.wf(),
        ensures
            match self.resized_image {
                None => r == Err::<Vec<u8>, RenderError>(RenderError::ResizeNotPerformed),
                Some(img) => {
                    let cc = channel_count(layout_of(img.colorspace));
                    if cc < 3 {
                        r == Err::<Vec<u8>, RenderError>(RenderError::ChannelReinterpretFailure)
                    } else {
                        r matches Ok(l) && l@ == luma_seq(
                            img.pixels@,
                            cc,
                            img.dimensions.width * img.dimensions.height,
                        )
                    }
                },
            },
    {
        let channels = match self.resized_rgb_channels() {
            Ok(c) => c,
            Err(e) => {
                return Err(e);
            },
        };
        let (red, green, blue) = channels;
        let n = red.len();
        let mut lumas: Vec<u8> = Vec::new();
        let mut i: usize = 0;
        while i < n
            invariant
                i <= n,
                n == red@.len(),
                n == green@.len(),
                n == blue@.len(),
                lumas@.len() == i,
                forall|j: int|
                    0 <= j < i ==> lumas@[j] == luma_spec(red@[j], green@[j], blue@[j]),
            decreases n - i,
        {
            lumas.push(luma_value(red[i], green[i], blue[i]));
            i += 1;
        }
        proof {
            let img = self.resized_image->Some_0;
            let cc = channel_count(layout_of(img.colorspace));
            assert(lumas@ =~= luma_seq(
                img.pixels@,
                cc,
                img.dimensions.width * img.dimensions.height,
            ));
        }
        Ok(lumas)
    }

    /// Renders the resized image as text: one ramp character per pixel,
    /// rows of the resized width separated by newlines. A pure read of
    /// the state, callable any number of times.
    pub fn apply_texture(&self) -> (r: Result<String, RenderError>)
        requires
            self.wf(),
        ensures
            match self.resized_image {
                None => r == Err::<String, RenderError>(RenderError::ResizeNotPerformed),
                Some(img) => {
                    let cc = channel_count(layout_of(img.colorspace));
                    if cc < 3 {
                        r == Err::<String, RenderError>(RenderError::ChannelReinterpretFailure)
                    } else {
                        r matches Ok(s) && s@ == rendered_spec(
                            img.pixels@,
                            cc,
                            img.dimensions.width as int,
                            img.dimensions.height as int,
                            self.texture@,
                        )
                    }
                },
            },
    {
        let lumas = match self.to_luma() {
            Ok(l) => l,
            Err(e) => {
                return Err(e);
            },
        };
        let img = match &self.resized_image {
            Some(i) => i,
            None => {
                return Err(RenderError::ResizeNotPerformed);
            },
        };
        let w = img.dimensions.width;
        let h = img.dimensions.height;
        let mut cells: Vec<char> = Vec::new();
        let mut i: usize = 0;
        let n = lumas.len();
        while i < n
            invariant
                i <= n,
                n == lumas@.len(),
                1 <= self.texture@.len() <= 255,
                cells@.len() == i,
                forall|j: int|
                    0 <= j < i ==> cells@[j] == self.texture@[ramp_index_spec(
                        lumas@[j],
                        self.texture@.len() as int,
                    )],
            decreases n - i,
        {
            let level = self.quantized_level(lumas[i]) as usize;
            let index = if level >= self.texture.len() {
                self.texture.len() - 1
            } else {
                level
            };
            proof {
                lemma_ramp_index_in_range(lumas@[i as int], self.texture@.len() as int);
            }
            cells.push(self.texture[index]);
            i += 1;
        }
        proof {
            assert(cells@ =~= cell_chars(lumas@, self.texture@));
        }
        let out = wrap_cells(&cells, w, h);
        Ok(chars_string(&out))
    }
}

/// Lays the cell characters out in `height` rows of `width`, a newline
/// after every row but the last, exactly as `wrap_rows` describes.
fn wrap_cells(cells: &Vec<char>, width: usize, height: usize) -> (out: Vec<char>)
    requires
        width >= 1,
        height >= 1,
        cells@.len() == width * height,
    ensures
        out@ == wrap_rows(cells@, width as int),
{
    let mut out: Vec<char> = Vec::new();
    let total = cells.len();
    let mut row: usize = 0;
    proof {
        assert(cells@.skip(0) =~= cells@);
        assert(Seq::<char>::empty() + wrap_rows(cells@, width as int) =~= wrap_rows(
            cells@,
            width as int,
        ));
    }
    while row < height
        invariant
            row <= height,
            width >= 1,
            cells@.len() == width * height,
            total == cells@.len(),
            out@ + wrap_rows(cells@.skip((row as int) * (width as int)), width as int)
                == wrap_rows(cells@, width as int),
        decreases height - row,
    {
        proof {
            assert((row as int) * (width as int) + (width as int) <= (height as int) * (
            width as int)) by (nonlinear_arith)
                requires
                    row < height,
                    width >= 1,
            ;
            assert((height as int) * (width as int) == (width as int) * (height as int))
                by (nonlinear_arith);
            assert((row as int) * (width as int) + (width as int) <= total);
        }
        let row_start = row * width;
        let ghost out_snap = out@;
        let ghost remaining = cells@.skip((row as int) * (width as int));
        let mut col: usize = 0;
        while col < width
            invariant
                col <= width,
                width >= 1,
                row < height,
                cells@.len() == width * height,
                row_start == row * width,
                row_start + width <= total,
                total == cells@.len(),
                out@ == out_snap + cells@.subrange(row_start as int, row_start + col),
            decreases width - col,
        {
            out.push(cells[row_start + col]);
            proof {
                assert(out@ =~= out_snap + cells@.subrange(row_start as int, row_start + col + 1));
            }
            col += 1;
        }
        proof {
            let wi = width as int;
            let ri = row as int;
            let hi = height as int;
            assert(remaining.len() == wi * hi - ri * wi);
            assert(wi * hi - ri * wi == wi * (hi - ri)) by (nonlinear_arith);
            assert(remaining.take(wi) =~= cells@.subrange(row_start as int, row_start + wi));
        }
        if row < height - 1 {
            out.push('\n');
            proof {
                let wi = width as int;
                let ri = row as int;
                let hi = height as int;
                assert(remaining.len() > wi) by (nonlinear_arith)
                    requires
                        remaining.len() == wi * (hi - ri),
                        hi - ri >= 2,
                        wi >= 1,
                ;
                assert(remaining.skip(wi) =~= cells@.skip((ri + 1) * wi)) by {
                    assert((ri + 1) * wi == ri * wi + wi) by (nonlinear_arith);
                    assert(remaining.skip(wi) =~= cells@.skip(ri * wi + wi));
                }
                assert(wrap_rows(remaining, wi) == remaining.take(wi) + seq!['\n'] + wrap_rows(
                    remaining.skip(wi),
                    wi,
                ));
                assert(out@ =~= out_snap + remaining.take(wi) + seq!['\n']);
                assert(out@ + wrap_rows(cells@.skip((ri + 1) * wi), wi) =~= out_snap + wrap_rows(
                    remaining,
                    wi,
                ));
            }
        } else {
            proof {
                let wi = width as int;
                let ri = row as int;
                let hi = height as int;
                assert(remaining.len() == wi) by (nonlinear_arith)
                    requires
                        remaining.len() == wi * (hi - ri),
                        hi - ri == 1,
                ;
                assert(wrap_rows(remaining, wi) == remaining);
                assert(remaining =~= cells@.subrange(row_start as int, row_start + wi));
                assert((ri + 1) * wi == ri * wi + wi) by (nonlinear_arith);
                assert(cells@.skip((ri + 1) * wi) =~= Seq::<char>::empty());
                assert(out@ + wrap_rows(cells@.skip((ri + 1) * wi), wi) =~= out_snap + wrap_rows(
                    remaining,
                    wi,
                ));
            }
        }
        row += 1;
    }
    proof {
        let wi = width as int;
        let hi = height as int;
        assert((hi) * wi == wi * hi) by (nonlinear_arith);
        assert(cells@.skip(hi * wi) =~= Seq::<char>::empty());
        assert(out@ + wrap_rows(cells@.skip(hi * wi), wi) =~= out@);
    }
    out
}

} // verus!
