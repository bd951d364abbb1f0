//! Rasters and the two bulk stages of the pipeline: combining the two
//! input rasters into a high-precision 16-bit RGBA intermediate, and
//! materializing that intermediate in the planned output format.

use vstd::prelude::*;

use crate::classify::{BitDepth, OutputPlan};
use crate::transform::{spec_transform_pixel, transform_pixel, Blend, Pixel16, Sample};

verus! {

/// One pixel (three channels) of a flat 16-bit RGB sequence.
pub open spec fn sample_of(data: Seq<u16>, i: int) -> Sample {
    Sample { r: data[3 * i], g: data[3 * i + 1], b: data[3 * i + 2] }
}

/// One pixel (four channels) of a flat 16-bit RGBA sequence.
pub open spec fn pixel16_of(data: Seq<u16>, i: int) -> Pixel16 {
    Pixel16 { r: data[4 * i], g: data[4 * i + 1], b: data[4 * i + 2], a: data[4 * i + 3] }
}

/// An input raster: width x height pixels of three 16-bit channels each,
/// row major, one channel per element.
#[derive(Debug)]
pub struct RgbRaster {
    pub width: u32,
    pub height: u32,
    pub data: Vec<u16>,
}

impl RgbRaster {
    pub open spec fn spec_pixel_count(self) -> int {
        (self.width as int) * (self.height as int)
    }

    /// Well formed: exactly three channel values per pixel.
    pub open spec fn wf(self) -> bool {
        self.data@.len() == 3 * self.spec_pixel_count()
    }

    pub open spec fn sample_at(self, i: int) -> Sample {
        sample_of(self.data@, i)
    }
}

/// The high-precision intermediate raster: width x height pixels of four
/// 16-bit channels (RGBA) each, row major.
#[derive(Debug)]
pub struct RgbaRaster {
    pub width: u32,
    pub height: u32,
    pub data: Vec<u16>,
}

impl RgbaRaster {
    pub open spec fn spec_pixel_count(self) -> int {
        (self.width as int) * (self.height as int)
    }

    /// Well formed: exactly four channel values per pixel.
    pub open spec fn wf(self) -> bool {
        self.data@.len() == 4 * self.spec_pixel_count()
    }

    pub open spec fn pixel_at(self, i: int) -> Pixel16 {
        pixel16_of(self.data@, i)
    }
}

/// Runs the alpha-recovery transform over every pixel coordinate of the
/// two equal-sized input rasters and writes the quantized result into a
/// fresh 16-bit RGBA intermediate raster.  Every pixel is independent; the
/// output cell for pixel `i` depends only on the two input pixels at `i`.
pub fn combine(black: &RgbRaster, white: &RgbRaster, blend: Blend) -> (out: RgbaRaster)
    requires
        black.wf(),
        white.wf(),
        black.width == white.width,
        black.height == white.height,
        4 * black.spec_pixel_count() <= usize::MAX as int,
    ensures
        out.wf(),
        out.width == black.width,
        out.height == black.height,
        forall|i: int|
            0 <= i < black.spec_pixel_count() ==> #[trigger] out.pixel_at(i)
                == spec_transform_pixel(black.sample_at(i), white.sample_at(i), blend),
{
    proof {
        assert((black.width as int) * (black.height as int) >= 0) by (nonlinear_arith);
    }
    let wh: usize = (black.width as usize) * (black.height as usize);
    let mut data: Vec<u16> = Vec::new();
    let mut i: usize = 0;
    while i < wh
        invariant
            black.wf(),
            white.wf(),
            black.width == white.width,
            black.height == white.height,
            wh == black.spec_pixel_count(),
            4 * black.spec_pixel_count() <= usize::MAX as int,
            i <= wh,
            data@.len() == 4 * i,
            forall|j: int|
                0 <= j < i ==> #[trigger] pixel16_of(data@, j)
                    == spec_transform_pixel(black.sample_at(j), white.sample_at(j), blend),
        decreases wh - i,
    {
        let bs = Sample {
            r: black.data[3 * i],
            g: black.data[3 * i + 1],
            b: black.data[3 * i + 2],
        };
        let ws = Sample {
            r: white.data[3 * i],
            g: white.data[3 * i + 1],
            b: white.data[3 * i + 2],
        };
        let p = transform_pixel(bs, ws, blend);
        let ghost pre = data@;
        data.push(p.r);
        data.push(p.g);
        data.push(p.b);
        data.push(p.a);
        proof {
            assert(data@ =~= pre + seq![p.r, p.g, p.b, p.a]);
            assert(bs == black.sample_at(i as int));
            assert(ws == white.sample_at(i as int));
            assert forall|j: int| 0 <= j < i + 1 implies #[trigger] pixel16_of(data@, j)
                == spec_transform_pixel(black.sample_at(j), white.sample_at(j), blend) by {
                if j < i {
                    assert(pixel16_of(data@, j) == pixel16_of(pre, j));
                } else {
                    assert(pixel16_of(data@, j) == p);
                }
            }
        }
        i = i + 1;
    }
    RgbaRaster { width: black.width, height: black.height, data }
}

/// Number of channels per pixel of the final raster: four for color
/// output, two (luminance and alpha) for grayscale output.
pub open spec fn spec_chans(is_color: bool) -> int {
    if is_color {
        4
    } else {
        2
    }
}

/// Maps a flat index of the final raster to the flat index of the 16-bit
/// RGBA intermediate it is taken from.  Color output copies all four
/// channels; grayscale output keeps the red channel as luminance and the
/// alpha channel, discarding green and blue.
pub open spec fn spec_source_index(is_color: bool, m: int) -> int {
    if is_color {
        m
    } else {
        4 * (m / 2) + (if m % 2 == 0 {
            0int
        } else {
            3int
        })
    }
}

/// Narrowing of one 16-bit channel value to 8 bits: a linear rescale with
/// rounding, `(v * 255 + 127) / 65535`.
pub open spec fn spec_narrow8(v: int) -> int {
    (v * 255 + 127) / 65535
}

/// Narrows one 16-bit channel value to 8 bits by linear rescale.
pub fn narrow8(v: u16) -> (b: u8)
    ensures
        b == spec_narrow8(v as int),
{
    let t: u32 = ((v as u32) * 255 + 127) / 65535;
    proof {
        assert(t <= 255) by (nonlinear_arith)
            requires
                t == ((v as int) * 255 + 127) / 65535,
                v <= 65535;
    }
    t as u8
}

/// Channel data of the final raster, at the planned bit depth.
#[derive(Debug)]
pub enum FinalData {
    Bytes(Vec<u8>),
    Words(Vec<u16>),
}

/// The final raster handed to the encoder: the planned channel layout
/// (color or grayscale, always with alpha) at the planned bit depth.
#[derive(Debug)]
pub struct FinalRaster {
    pub width: u32,
    pub height: u32,
    pub is_color: bool,
    pub data: FinalData,
}

/// What a well-formed 8-bit materialization states: the right length, and
/// each element the 8-bit narrowing of its source channel.
pub open spec fn bytes_ok(out: Seq<u8>, src: Seq<u16>, pc: int, is_color: bool) -> bool {
    &&& out.len() == spec_chans(is_color) * pc
    &&& forall|m: int|
        0 <= m < out.len() ==> #[trigger] out[m] == spec_narrow8(
            src[spec_source_index(is_color, m)] as int,
        )
}

/// What a well-formed 16-bit materialization states: the right length, and
/// each element a copy of its source channel.
pub open spec fn words_ok(out: Seq<u16>, src: Seq<u16>, pc: int, is_color: bool) -> bool {
    &&& out.len() == spec_chans(is_color) * pc
    &&& forall|m: int|
        0 <= m < out.len() ==> #[trigger] out[m] == src[spec_source_index(is_color, m)]
}

/// Reformats the high-precision intermediate raster into the bit depth and
/// channel layout chosen by classification.  Pure reformatting: grayscale
/// output keeps luminance (the red channel) and alpha; 8-bit output is a
/// rounded linear rescale of the 16-bit values.
pub fn materialize(inter: &RgbaRaster, plan: OutputPlan) -> (m: FinalRaster)
    requires
        inter.wf(),
        4 * inter.spec_pixel_count() <= usize::MAX as int,
    ensures
        m.width == inter.width,
        m.height == inter.height,
        m.is_color == plan.is_color,
        plan.bit_depth == BitDepth::Eight ==> {
            &&& m.data matches FinalData::Bytes(v)
            &&& bytes_ok(v@, inter.data@, inter.spec_pixel_count(), plan.is_color)
        },
        plan.bit_depth == BitDepth::Sixteen ==> {
            &&& m.data matches FinalData::Words(v)
            &&& words_ok(v@, inter.data@, inter.spec_pixel_count(), plan.is_color)
        },
{
    proof {
        assert((inter.width as int) * (inter.height as int) >= 0) by (nonlinear_arith);
    }
    let wh: usize = (inter.width as usize) * (inter.height as usize);
    let chans: usize = if plan.is_color {
        4
    } else {
        2
    };
    let total: usize = chans * wh;
    let data = match plan.bit_depth {
        BitDepth::Eight => {
            let mut v: Vec<u8> = Vec::new();
            let mut m: usize = 0;
            while m < total
                invariant
                    inter.wf(),
                    wh == inter.spec_pixel_count(),
                    4 * inter.spec_pixel_count() <= usize::MAX as int,
                    chans == spec_chans(plan.is_color),
                    total == chans * wh,
                    m <= total,
                    v@.len() == m,
                    forall|n: int|
                        0 <= n < m ==> #[trigger] v@[n] == spec_narrow8(
                            inter.data@[spec_source_index(plan.is_color, n)] as int,
                        ),
                decreases total - m,
            {
                let si: usize = if plan.is_color {
                    m
                } else {
                    proof {
                        assert(m / 2 < wh) by (nonlinear_arith)
                            requires
                                0 <= m < 2 * wh;
                    }
                    4 * (m / 2) + (if m % 2 == 0 {
                        0
                    } else {
                        3
                    })
                };
                v.push(narrow8(inter.data[si]));
                m = m + 1;
            }
            FinalData::Bytes(v)
        },
        BitDepth::Sixteen => {
            let mut v: Vec<u16> = Vec::new();
            let mut m: usize = 0;
            while m < total
                invariant
                    inter.wf(),
                    wh == inter.spec_pixel_count(),
                    4 * inter.spec_pixel_count() <= usize::MAX as int,
                    chans == spec_chans(plan.is_color),
                    total == chans * wh,
                    m <= total,
                    v@.len() == m,
                    forall|n: int|
                        0 <= n < m ==> #[trigger] v@[n] == inter.data@[spec_source_index(
                            plan.is_color,
                            n,
                        )],
                decreases total - m,
            {
                let si: usize = if plan.is_color {
                    m
                } else {
                    proof {
                        assert(m / 2 < wh) by (nonlinear_arith)
                            requires
                                0 <= m < 2 * wh;
                    }
                    4 * (m / 2) + (if m % 2 == 0 {
                        0
                    } else {
                        3
                    })
                };
                v.push(inter.data[si]);
                m = m + 1;
            }
            FinalData::Words(v)
        },
    };
    FinalRaster { width: inter.width, height: inter.height, is_color: plan.is_color, data }
}

} // verus!
