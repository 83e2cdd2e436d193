use vstd::prelude::*;

verus! {

/// Every failure the rendering pipeline can report to its caller.
///
/// All of these are recoverable: the pipeline itself never aborts the
/// process, it hands the error back to whoever invoked it.
#[derive(Clone, Copy, Debug, PartialEq, Eq, Structural)]
pub enum RenderError {
    /// The input bytes could not be decoded into a raster image, or the
    /// decoder reported metadata inconsistent with the pixel data.
    DecodeFailure,
    /// The decoded image uses a colorspace outside the supported set.
    UnsupportedColorspace,
    /// No target size was requested and the terminal size could not be read.
    TerminalSizeUnavailable,
    /// The margin does not leave room on the constrained axis, or the
    /// computed grid has a zero or unrepresentable dimension.
    DimensionUnderflow,
    /// Channel or luma extraction was attempted before a resize had run.
    ResizeNotPerformed,
    /// The resized image does not expose at least three 8-bit channels.
    ChannelReinterpretFailure,
    /// The texture ramp cannot index the quantized levels: it is empty or
    /// longer than the number of representable luma values.
    TextureIndexOutOfRange,
}

} // verus!
