//! Format classification: decides whether two input rasters can be combined
//! and which output format the pipeline must produce.

use vstd::prelude::*;

verus! {

/// The color encoding of a decoded raster: channel arrangement
/// (grayscale / grayscale+alpha / RGB / RGBA) and bit depth per channel
/// (8, 16, or 32-bit floating point).
#[derive(Clone, Copy, PartialEq, Eq, Structural, Debug)]
pub enum ColorEncoding {
    L8,
    La8,
    L16,
    La16,
    Rgb8,
    Rgba8,
    Rgb16,
    Rgba16,
    Rgb32F,
    Rgba32F,
}

impl ColorEncoding {
    /// True when the encoding carries three color channels rather than a
    /// single luminance channel.
    pub open spec fn spec_has_color(self) -> bool {
        self is Rgb8 || self is Rgba8 || self is Rgb16 || self is Rgba16 || self is Rgb32F
            || self is Rgba32F
    }

    /// True for the 32-bit floating-point precision class, which the
    /// pipeline rejects.
    pub open spec fn spec_is_float(self) -> bool {
        self is Rgb32F || self is Rgba32F
    }

    /// Bits per channel: 8, 16, or 32.
    pub open spec fn spec_bits_per_channel(self) -> int {
        match self {
            ColorEncoding::L8 | ColorEncoding::La8 | ColorEncoding::Rgb8
                | ColorEncoding::Rgba8 => 8,
            ColorEncoding::L16 | ColorEncoding::La16 | ColorEncoding::Rgb16
                | ColorEncoding::Rgba16 => 16,
            ColorEncoding::Rgb32F | ColorEncoding::Rgba32F => 32,
        }
    }

    pub fn has_color(&self) -> (b: bool)
        ensures
            b == self.spec_has_color(),
    {
        match self {
            ColorEncoding::Rgb8 | ColorEncoding::Rgba8 | ColorEncoding::Rgb16
                | ColorEncoding::Rgba16 | ColorEncoding::Rgb32F | ColorEncoding::Rgba32F => true,
            _ => false,
        }
    }

    pub fn is_float(&self) -> (b: bool)
        ensures
            b == self.spec_is_float(),
    {
        match self {
            ColorEncoding::Rgb32F | ColorEncoding::Rgba32F => true,
            _ => false,
        }
    }

    pub fn bits_per_channel(&self) -> (b: u32)
        ensures
            b == self.spec_bits_per_channel(),
    {
        match self {
            ColorEncoding::L8 | ColorEncoding::La8 | ColorEncoding::Rgb8
                | ColorEncoding::Rgba8 => 8,
            ColorEncoding::L16 | ColorEncoding::La16 | ColorEncoding::Rgb16
                | ColorEncoding::Rgba16 => 16,
            ColorEncoding::Rgb32F | ColorEncoding::Rgba32F => 32,
        }
    }
}

/// Dimensions and encoding of a decoded raster, as reported by the decoder.
#[derive(Clone, Copy, PartialEq, Eq, Structural, Debug)]
pub struct RasterDesc {
    pub width: u32,
    pub height: u32,
    pub encoding: ColorEncoding,
}

/// Bit depth of the final output raster.
#[derive(Clone, Copy, PartialEq, Eq, Structural, Debug)]
pub enum BitDepth {
    Eight,
    Sixteen,
}

/// The output format chosen by classification: channel layout (color or
/// luminance, always with an alpha channel) and bit depth.
#[derive(Clone, Copy, PartialEq, Eq, Structural, Debug)]
pub struct OutputPlan {
    pub is_color: bool,
    pub bit_depth: BitDepth,
    pub has_alpha: bool,
}

/// Why a pair of input rasters cannot be combined.
#[derive(Clone, Copy, PartialEq, Eq, Structural, Debug)]
pub enum ClassifyError {
    /// The two rasters differ in width or height.
    DimensionMismatch,
    /// At least one raster uses the 32-bit floating-point precision class.
    UnsupportedPrecision,
    /// The two rasters use different color encodings.
    EncodingMismatch,
}

/// Validates that the two input rasters can be combined and picks the
/// output format.  Rejections are checked in a fixed order: dimensions
/// first, then precision class, then encoding equality.
pub fn validate_and_plan(black: RasterDesc, white: RasterDesc) -> (r: Result<
    OutputPlan,
    ClassifyError,
>)
    ensures
        (black.width != white.width || black.height != white.height) <==> r == Err::<
            OutputPlan,
            ClassifyError,
        >(ClassifyError::DimensionMismatch),
        (black.width == white.width && black.height == white.height && (
        black.encoding.spec_is_float() || white.encoding.spec_is_float())) <==> r == Err::<
            OutputPlan,
            ClassifyError,
        >(ClassifyError::UnsupportedPrecision),
        (black.width == white.width && black.height == white.height
            && !black.encoding.spec_is_float() && !white.encoding.spec_is_float()
            && black.encoding != white.encoding) <==> r == Err::<OutputPlan, ClassifyError>(
            ClassifyError::EncodingMismatch,
        ),
        r matches Ok(plan) ==> {
            &&& black.width == white.width
            &&& black.height == white.height
            &&& black.encoding == white.encoding
            &&& !black.encoding.spec_is_float()
            &&& plan.is_color == black.encoding.spec_has_color()
            &&& plan.has_alpha
            &&& (plan.bit_depth == BitDepth::Eight <==> black.encoding.spec_bits_per_channel()
                == 8)
            &&& (plan.bit_depth == BitDepth::Sixteen <==> black.encoding.spec_bits_per_channel()
                == 16)
        },
        (black.width == white.width && black.height == white.height
            && !black.encoding.spec_is_float() && !white.encoding.spec_is_float()
            && black.encoding == white.encoding) ==> r is Ok,
{
    if black.width != white.width || black.height != white.height {
        return Err(ClassifyError::DimensionMismatch);
    }
    if black.encoding.is_float() || white.encoding.is_float() {
        return Err(ClassifyError::UnsupportedPrecision);
    }
    if black.encoding != white.encoding {
        return Err(ClassifyError::EncodingMismatch);
    }
    let bit_depth = if black.encoding.bits_per_channel() == 8 {
        BitDepth::Eight
    } else {
        BitDepth::Sixteen
    };
    Ok(OutputPlan { is_color: black.encoding.has_color(), bit_depth, has_alpha: true })
}

} // verus!
