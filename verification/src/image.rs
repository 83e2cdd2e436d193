use vstd::prelude::*;

use crate::conversions::{channel_count, layout_of, Colorspace};

verus! {

/// A width/height pair, in pixels or in character cells.
#[derive(Clone, Copy, Debug, PartialEq, Eq, Structural)]
pub struct ImgDimensions {
    pub width: usize,
    pub height: usize,
}

impl ImgDimensions {
    /// Both axes are positive and fit the resampler's 32-bit range.
    pub open spec fn wf(self) -> bool {
        &&& 0 < self.width <= 0xFFFF_FFFF
        &&& 0 < self.height <= 0xFFFF_FFFF
    }
}

/// A decoded raster held as plain values: a flat, row-major, interleaved
/// buffer of 8-bit samples, its dimensions and its colorspace tag.
#[derive(Debug)]
pub struct ImageRepr {
    pub pixels: Vec<u8>,
    pub dimensions: ImgDimensions,
    pub colorspace: Colorspace,
}

impl ImageRepr {
    /// The pixel buffer holds exactly one 8-bit sample per channel for
    /// every pixel of the `width * height` grid.
    pub open spec fn wf(self) -> bool {
        &&& self.dimensions.wf()
        &&& self.pixels@.len()
            == self.dimensions.width * self.dimensions.height
                * channel_count(layout_of(self.colorspace))
    }

    pub fn width(&self) -> (w: usize)
        ensures
            w == self.dimensions.width,
    {
        self.dimensions.width
    }

    pub fn height(&self) -> (h: usize)
        ensures
            h == self.dimensions.height,
    {
        self.dimensions.height
    }
}

} // verus!
