use alpha_matte::transform::{quantize16, recover, transform_pixel, Blend, Pixel16, Rat, Sample};

fn gray(v: u16) -> Sample {
    Sample { r: v, g: v, b: v }
}

#[test]
fn alpha_in_bounds_for_partial_coverage() {
    // black red 0.0, white red 0.9 at max 10: raw alpha 0.1, kept as is
    let p = recover(gray(0), gray(9), 10, Blend::Black);
    assert_eq!(p.alpha, Rat { num: 1, den: 10 });
}

#[test]
fn alpha_clamped_to_one() {
    // black red 1.0, white red 0.0: raw alpha 2.0, clamped to 1.0
    let p = recover(gray(10), gray(0), 10, Blend::Black);
    assert_eq!(p.alpha, Rat { num: 10, den: 10 });
}

#[test]
fn zero_alpha_gives_zero_color_every_blend() {
    // black red 0.0 and white red 1.0: alpha is exactly zero
    for blend in [Blend::White, Blend::Black, Blend::Mix] {
        let p = recover(Sample { r: 0, g: 7, b: 3 }, gray(10), 10, blend);
        assert_eq!(p.alpha.num, 0);
        assert_eq!(p.r.num, 0);
        assert_eq!(p.g.num, 0);
        assert_eq!(p.b.num, 0);
    }
}

#[test]
fn blend_mode_selection() {
    // blackSample (0.2, 0.4, 0.6), whiteSample (0.3, 0.5, 0.7): alpha 0.9
    let black = Sample { r: 2, g: 4, b: 6 };
    let white = Sample { r: 3, g: 5, b: 7 };

    let from_black = recover(black, white, 10, Blend::Black);
    assert_eq!(from_black.alpha, Rat { num: 9, den: 10 });
    assert_eq!(from_black.r, Rat { num: 2, den: 9 });
    assert_eq!(from_black.g, Rat { num: 4, den: 9 });
    assert_eq!(from_black.b, Rat { num: 6, den: 9 });

    let from_white = recover(black, white, 10, Blend::White);
    assert_eq!(from_white.alpha, Rat { num: 9, den: 10 });
    assert_eq!(from_white.r, Rat { num: 3, den: 9 });
    assert_eq!(from_white.g, Rat { num: 5, den: 9 });
    assert_eq!(from_white.b, Rat { num: 7, den: 9 });

    let mix = recover(black, white, 10, Blend::Mix);
    assert_eq!(mix.alpha, Rat { num: 9, den: 10 });
    assert_eq!(mix.r, Rat { num: 5, den: 18 });
    assert_eq!(mix.g, Rat { num: 9, den: 18 });
    assert_eq!(mix.b, Rat { num: 13, den: 18 });
}

#[test]
fn quantization_saturates_out_of_range() {
    // a recovered channel of 1.3 quantizes to the maximum, not a wrap
    assert_eq!(quantize16(Rat { num: 13, den: 10 }), 65535);
    assert_eq!(quantize16(Rat { num: 5, den: 2 }), 65535);
}

#[test]
fn quantization_exact_values() {
    assert_eq!(quantize16(Rat { num: 0, den: 1 }), 0);
    assert_eq!(quantize16(Rat { num: 1, den: 1 }), 65535);
    assert_eq!(quantize16(Rat { num: 1, den: 2 }), 32767); // 65535 / 2 truncated
    assert_eq!(quantize16(Rat { num: 3, den: 4 }), 49151); // 49151.25 truncated
}

#[test]
fn transform_pixel_round_trip_synthetic() {
    // true alpha 13107/65535 (0.2), true color 32765/65535 per channel:
    // rendered over black that is 32765 * 0.2 = 6553, over white 6553 + 65535 - 13107
    let black = gray(6553);
    let white = gray(58981);
    let p = transform_pixel(black, white, Blend::Black);
    assert_eq!(p, Pixel16 { r: 32765, g: 32765, b: 32765, a: 13107 });
}

#[test]
fn transform_pixel_round_trip_off_grid() {
    // true alpha 13107/65535 (0.2), true color 30001/65535: the rendering
    // 30001 * 0.2 quantizes to 6000/65535, so recovery lands one step low
    // (within the 65535/alpha + 1 bound), and alpha is still exact
    let black = gray(6000);
    let white = gray(6000 + (65535 - 13107));
    let p = transform_pixel(black, white, Blend::Black);
    assert_eq!(p, Pixel16 { r: 30000, g: 30000, b: 30000, a: 13107 });
}

#[test]
fn transform_pixel_opaque_identity() {
    // identical samples: alpha one, color unchanged, in every blend mode
    for blend in [Blend::White, Blend::Black, Blend::Mix] {
        let s = Sample { r: 100, g: 2000, b: 65535 };
        let p = transform_pixel(s, s, blend);
        assert_eq!(p, Pixel16 { r: 100, g: 2000, b: 65535, a: 65535 });
    }
}

#[test]
fn transform_pixel_saturates() {
    // small alpha with a bright channel: color exceeds 1.0 and clips
    let black = Sample { r: 2, g: 5, b: 0 };
    let white = Sample { r: 65535, g: 0, b: 0 };
    let p = transform_pixel(black, white, Blend::Black);
    // alpha = 2/65535; green 5 / (2/65535) = 2.5 in normalized terms
    assert_eq!(p.a, 2);
    assert_eq!(p.g, 65535);
    assert_eq!(p.r, 65535);
    assert_eq!(p.b, 0);
}
