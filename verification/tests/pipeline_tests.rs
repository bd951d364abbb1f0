use alpha_matte::classify::{
    validate_and_plan, BitDepth, ClassifyError, ColorEncoding, OutputPlan, RasterDesc,
};
use alpha_matte::pipeline::run_pipeline;
use alpha_matte::raster::{combine, materialize, narrow8, FinalData, RgbRaster, RgbaRaster};
use alpha_matte::transform::Blend;

fn desc(width: u32, height: u32, encoding: ColorEncoding) -> RasterDesc {
    RasterDesc { width, height, encoding }
}

#[test]
fn dimension_mismatch_rejected() {
    let r = validate_and_plan(desc(10, 10, ColorEncoding::Rgb8), desc(10, 11, ColorEncoding::Rgb8));
    assert_eq!(r, Err(ClassifyError::DimensionMismatch));
}

#[test]
fn dimension_checked_before_precision() {
    let r = validate_and_plan(
        desc(10, 10, ColorEncoding::Rgb32F),
        desc(10, 11, ColorEncoding::Rgb32F),
    );
    assert_eq!(r, Err(ClassifyError::DimensionMismatch));
}

#[test]
fn float_precision_rejected() {
    let r = validate_and_plan(
        desc(10, 10, ColorEncoding::Rgb32F),
        desc(10, 10, ColorEncoding::Rgb32F),
    );
    assert_eq!(r, Err(ClassifyError::UnsupportedPrecision));
    let r = validate_and_plan(
        desc(10, 10, ColorEncoding::Rgba32F),
        desc(10, 10, ColorEncoding::Rgb8),
    );
    assert_eq!(r, Err(ClassifyError::UnsupportedPrecision));
    let r = validate_and_plan(
        desc(10, 10, ColorEncoding::L8),
        desc(10, 10, ColorEncoding::Rgba32F),
    );
    assert_eq!(r, Err(ClassifyError::UnsupportedPrecision));
}

#[test]
fn encoding_mismatch_rejected() {
    let r = validate_and_plan(desc(10, 10, ColorEncoding::L8), desc(10, 10, ColorEncoding::Rgb8));
    assert_eq!(r, Err(ClassifyError::EncodingMismatch));
}

#[test]
fn plans_follow_the_shared_encoding() {
    let cases = [
        (ColorEncoding::L8, false, BitDepth::Eight),
        (ColorEncoding::La8, false, BitDepth::Eight),
        (ColorEncoding::L16, false, BitDepth::Sixteen),
        (ColorEncoding::La16, false, BitDepth::Sixteen),
        (ColorEncoding::Rgb8, true, BitDepth::Eight),
        (ColorEncoding::Rgba8, true, BitDepth::Eight),
        (ColorEncoding::Rgb16, true, BitDepth::Sixteen),
        (ColorEncoding::Rgba16, true, BitDepth::Sixteen),
    ];
    for (encoding, is_color, bit_depth) in cases {
        let r = validate_and_plan(desc(3, 4, encoding), desc(3, 4, encoding));
        assert_eq!(r, Ok(OutputPlan { is_color, bit_depth, has_alpha: true }));
    }
}

#[test]
fn combine_runs_every_pixel() {
    // pixel 0 fully transparent, pixel 1 fully opaque
    let black = RgbRaster { width: 2, height: 1, data: vec![0, 0, 0, 100, 200, 300] };
    let white = RgbRaster { width: 2, height: 1, data: vec![65535, 65535, 65535, 100, 200, 300] };
    let inter = combine(&black, &white, Blend::Black);
    assert_eq!(inter.width, 2);
    assert_eq!(inter.height, 1);
    assert_eq!(inter.data, vec![0, 0, 0, 0, 100, 200, 300, 65535]);
}

#[test]
fn grayscale_materialization_keeps_two_channels() {
    // luminance is the red channel; green and blue are discarded
    let inter = RgbaRaster { width: 1, height: 2, data: vec![10, 20, 30, 40, 50, 60, 70, 80] };
    let plan = OutputPlan { is_color: false, bit_depth: BitDepth::Sixteen, has_alpha: true };
    let m = materialize(&inter, plan);
    assert!(!m.is_color);
    match m.data {
        FinalData::Words(v) => assert_eq!(v, vec![10, 40, 50, 80]),
        FinalData::Bytes(_) => panic!("expected 16-bit output"),
    }
}

#[test]
fn color_materialization_keeps_four_channels() {
    let inter = RgbaRaster { width: 1, height: 1, data: vec![65535, 257, 256, 0] };
    let plan = OutputPlan { is_color: true, bit_depth: BitDepth::Eight, has_alpha: true };
    let m = materialize(&inter, plan);
    assert!(m.is_color);
    match m.data {
        FinalData::Bytes(v) => assert_eq!(v, vec![255, 1, 0, 0]),
        FinalData::Words(_) => panic!("expected 8-bit output"),
    }
}

#[test]
fn narrowing_rescales_with_rounding() {
    assert_eq!(narrow8(0), 0);
    assert_eq!(narrow8(65535), 255);
    assert_eq!(narrow8(257), 1);
    assert_eq!(narrow8(256), 0); // 0.996 of one 8-bit step rounds down
    assert_eq!(narrow8(32896), 128); // 128 * 257, the exact midpoint value
}

#[test]
fn pipeline_round_trip_sixteen_bit_color() {
    // synthetic scene: alpha 0.2 (13107/65535), color 32765/65535
    let black = RgbRaster { width: 1, height: 1, data: vec![6553, 6553, 6553] };
    let white = RgbRaster { width: 1, height: 1, data: vec![58981, 58981, 58981] };
    let r = run_pipeline(&black, &white, ColorEncoding::Rgb16, ColorEncoding::Rgb16, Blend::Black);
    let out = r.expect("pipeline must accept a matching pair");
    assert_eq!(out.width, 1);
    assert_eq!(out.height, 1);
    assert!(out.is_color);
    match out.data {
        FinalData::Words(v) => assert_eq!(v, vec![32765, 32765, 32765, 13107]),
        FinalData::Bytes(_) => panic!("expected 16-bit output"),
    }
}

#[test]
fn pipeline_opaque_gray_eight_bit() {
    // identical samples: alpha one, luminance unchanged; 128 widened 8-bit
    let sample = 128u16 * 257;
    let black = RgbRaster { width: 1, height: 1, data: vec![sample, sample, sample] };
    let white = RgbRaster { width: 1, height: 1, data: vec![sample, sample, sample] };
    let r = run_pipeline(&black, &white, ColorEncoding::L8, ColorEncoding::L8, Blend::Black);
    let out = r.expect("pipeline must accept a matching pair");
    assert!(!out.is_color);
    match out.data {
        FinalData::Bytes(v) => assert_eq!(v, vec![128, 255]),
        FinalData::Words(_) => panic!("expected 8-bit output"),
    }
}

#[test]
fn pipeline_rejects_like_the_classifier() {
    let one = RgbRaster { width: 1, height: 1, data: vec![0, 0, 0] };
    let two = RgbRaster { width: 2, height: 1, data: vec![0, 0, 0, 0, 0, 0] };
    let r = run_pipeline(&one, &two, ColorEncoding::Rgb8, ColorEncoding::Rgb8, Blend::Black);
    assert_eq!(r.err(), Some(ClassifyError::DimensionMismatch));
    let r = run_pipeline(&one, &one, ColorEncoding::Rgb32F, ColorEncoding::Rgb32F, Blend::Black);
    assert_eq!(r.err(), Some(ClassifyError::UnsupportedPrecision));
    let r = run_pipeline(&one, &one, ColorEncoding::Rgb8, ColorEncoding::Rgba8, Blend::Black);
    assert_eq!(r.err(), Some(ClassifyError::EncodingMismatch));
}
