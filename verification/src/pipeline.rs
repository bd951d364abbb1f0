//! The whole compute pipeline in one verified call: classification of the
//! raster pair, per-pixel combination, and materialization in the planned
//! output format.  Callers decode the two input images, convert them to
//! flat 16-bit RGB rasters, and encode the returned final raster.

use vstd::prelude::*;

use vstd::arithmetic::div_mod::{
    lemma_fundamental_div_mod, lemma_mod_division_less_than_divisor, lemma_div_pos_is_pos,
};

use crate::classify::{validate_and_plan, BitDepth, ClassifyError, ColorEncoding, RasterDesc};
use crate::raster::{
    combine, materialize, pixel16_of, spec_chans, spec_narrow8, spec_source_index, FinalData,
    FinalRaster, RgbRaster,
};
use crate::transform::{spec_transform_pixel, Blend};

verus! {

/// The value of flat channel index `ci` of the intermediate 16-bit RGBA
/// raster that combining `black` and `white` produces: channel `ci % 4` of
/// the transformed pixel `ci / 4`.
pub open spec fn spec_combined_channel(
    black: RgbRaster,
    white: RgbRaster,
    blend: Blend,
    ci: int,
) -> u16 {
    let p = spec_transform_pixel(black.sample_at(ci / 4), white.sample_at(ci / 4), blend);
    if ci % 4 == 0 {
        p.r
    } else if ci % 4 == 1 {
        p.g
    } else if ci % 4 == 2 {
        p.b
    } else {
        p.a
    }
}

/// The full run on decoded data: validates the pair of rasters, recovers
/// alpha and unpremultiplied color for every pixel, and reformats the
/// result in the output format that classification picked.  The two
/// rasters carry 16-bit quantized samples; `black_encoding` and
/// `white_encoding` are the color encodings the decoder reported for them.
pub fn run_pipeline(
    black: &RgbRaster,
    white: &RgbRaster,
    black_encoding: ColorEncoding,
    white_encoding: ColorEncoding,
    blend: Blend,
) -> (r: Result<FinalRaster, ClassifyError>)
    requires
        black.wf(),
        white.wf(),
        4 * black.spec_pixel_count() <= usize::MAX as int,
    ensures
        (black.width != white.width || black.height != white.height) <==> r == Err::<
            FinalRaster,
            ClassifyError,
        >(ClassifyError::DimensionMismatch),
        (black.width == white.width && black.height == white.height && (
        black_encoding.spec_is_float() || white_encoding.spec_is_float())) <==> r == Err::<
            FinalRaster,
            ClassifyError,
        >(ClassifyError::UnsupportedPrecision),
        (black.width == white.width && black.height == white.height
            && !black_encoding.spec_is_float() && !white_encoding.spec_is_float()
            && black_encoding != white_encoding) <==> r == Err::<FinalRaster, ClassifyError>(
            ClassifyError::EncodingMismatch,
        ),
        (black.width == white.width && black.height == white.height
            && !black_encoding.spec_is_float() && !white_encoding.spec_is_float()
            && black_encoding == white_encoding) <==> r is Ok,
        r matches Ok(out) ==> {
            &&& out.width == black.width
            &&& out.height == black.height
            &&& out.is_color == black_encoding.spec_has_color()
            &&& black_encoding.spec_bits_per_channel() == 8 ==> {
                &&& out.data matches FinalData::Bytes(v)
                &&& v@.len() == spec_chans(out.is_color) * black.spec_pixel_count()
                &&& forall|m: int|
                    0 <= m < v@.len() ==> #[trigger] v@[m] == spec_narrow8(
                        spec_combined_channel(
                            *black,
                            *white,
                            blend,
                            spec_source_index(out.is_color, m),
                        ) as int,
                    )
            }
            &&& black_encoding.spec_bits_per_channel() == 16 ==> {
                &&& out.data matches FinalData::Words(v)
                &&& v@.len() == spec_chans(out.is_color) * black.spec_pixel_count()
                &&& forall|m: int|
                    0 <= m < v@.len() ==> #[trigger] v@[m] == spec_combined_channel(
                        *black,
                        *white,
                        blend,
                        spec_source_index(out.is_color, m),
                    )
            }
        },
{
    let black_desc = RasterDesc {
        width: black.width,
        height: black.height,
        encoding: black_encoding,
    };
    let white_desc = RasterDesc {
        width: white.width,
        height: white.height,
        encoding: white_encoding,
    };
    let plan = match validate_and_plan(black_desc, white_desc) {
        Ok(plan) => plan,
        Err(e) => {
            return Err(e);
        },
    };
    let inter = combine(black, white, blend);
    let out = materialize(&inter, plan);
    proof {
        let pc = black.spec_pixel_count();
        assert forall|ci: int| 0 <= ci < 4 * pc implies inter.data@[ci] == spec_combined_channel(
            *black,
            *white,
            blend,
            ci,
        ) by {
            lemma_fundamental_div_mod(ci, 4);
            lemma_mod_division_less_than_divisor(ci, 4);
            lemma_div_pos_is_pos(ci, 4);
            let j = ci / 4;
            assert(j < pc) by (nonlinear_arith)
                requires
                    0 <= j,
                    4 * j <= ci,
                    ci < 4 * pc;
            assert(inter.pixel_at(j) == spec_transform_pixel(
                black.sample_at(j),
                white.sample_at(j),
                blend,
            ));
            assert(pixel16_of(inter.data@, j).r == inter.data@[4 * j]);
        }
        assert(out.is_color == plan.is_color);
        if plan.bit_depth == BitDepth::Eight {
            if let FinalData::Bytes(v) = &out.data {
                assert forall|m: int| 0 <= m < v@.len() implies #[trigger] v@[m] == spec_narrow8(
                    spec_combined_channel(
                        *black,
                        *white,
                        blend,
                        spec_source_index(out.is_color, m),
                    ) as int,
                ) by {
                    let si = spec_source_index(out.is_color, m);
                    assert(0 <= si < 4 * pc) by {
                        if !out.is_color {
                            lemma_fundamental_div_mod(m, 2);
                            lemma_mod_division_less_than_divisor(m, 2);
                            lemma_div_pos_is_pos(m, 2);
                            assert(m / 2 < pc) by (nonlinear_arith)
                                requires
                                    0 <= m / 2,
                                    2 * (m / 2) <= m,
                                    m < 2 * pc;
                        }
                    }
                    assert(v@[m] == spec_narrow8(inter.data@[si] as int));
                }
            }
        } else {
            if let FinalData::Words(v) = &out.data {
                assert forall|m: int| 0 <= m < v@.len() implies #[trigger] v@[m]
                    == spec_combined_channel(
                    *black,
                    *white,
                    blend,
                    spec_source_index(out.is_color, m),
                ) by {
                    let si = spec_source_index(out.is_color, m);
                    assert(0 <= si < 4 * pc) by {
                        if !out.is_color {
                            lemma_fundamental_div_mod(m, 2);
                            lemma_mod_division_less_than_divisor(m, 2);
                            lemma_div_pos_is_pos(m, 2);
                            assert(m / 2 < pc) by (nonlinear_arith)
                                requires
                                    0 <= m / 2,
                                    2 * (m / 2) <= m,
                                    m < 2 * pc;
                        }
                    }
                    assert(v@[m] == inter.data@[si]);
                }
            }
        }
    }
    Ok(out)
}

} // verus!
