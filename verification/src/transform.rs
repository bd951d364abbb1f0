//! The per-pixel alpha-recovery transform.
//!
//! A pixel rendered over a known background satisfies, per channel,
//! `observed = color * alpha + background * (1 - alpha)`.  Sampling the same
//! pixel over pure black and pure white therefore gives
//! `alpha = black.r - white.r + 1` (derived from the red channel only) and,
//! once alpha is known, the unpremultiplied color by division.
//!
//! Samples are quantized: a channel value `v` of a format whose maximum
//! integer value is `max` stands for the real number `v / max`.  All
//! arithmetic here is exact rational arithmetic on those quantized values,
//! so every contract states the result precisely.

use vstd::prelude::*;

verus! {

/// Which input raster supplies the recovered color channels once alpha is
/// known.  `Mix` averages the two and is experimental, not photometrically
/// correct; it is offered as an experiment only.
#[derive(Clone, Copy, PartialEq, Eq, Structural, Debug)]
pub enum Blend {
    White,
    Black,
    Mix,
}

/// One pixel's color sample: channel values quantized to `0 ..= max` for
/// the format maximum `max` given alongside the sample.
#[derive(Clone, Copy, PartialEq, Eq, Structural, Debug)]
pub struct Sample {
    pub r: u16,
    pub g: u16,
    pub b: u16,
}

/// An exact nonnegative rational number `num / den`.
#[derive(Clone, Copy, PartialEq, Eq, Structural, Debug)]
pub struct Rat {
    pub num: u32,
    pub den: u32,
}

impl Rat {
    /// A rational is well formed when its denominator is nonzero.
    pub open spec fn wf(self) -> bool {
        self.den >= 1
    }
}

/// The recovered pixel: unpremultiplied color and alpha, as exact
/// rationals.  Color channels may exceed one when alpha is small; they are
/// clipped only at quantization time.
#[derive(Clone, Copy, PartialEq, Eq, Structural, Debug)]
pub struct RecoveredPixel {
    pub r: Rat,
    pub g: Rat,
    pub b: Rat,
    pub alpha: Rat,
}

/// Numerator (over denominator `max`) of the recovered alpha:
/// `black_r - white_r + max`, clamped to `0 ..= max`.  The raw value is
/// never negative because `black_r >= 0` and `white_r <= max`.
pub open spec fn spec_alpha_num(black_r: int, white_r: int, max: int) -> int {
    if black_r + max - white_r > max {
        max
    } else {
        black_r + max - white_r
    }
}

/// Numerator of a recovered color channel before division by alpha.
pub open spec fn spec_color_num(black_c: int, white_c: int, blend: Blend) -> int {
    match blend {
        Blend::White => white_c,
        Blend::Black => black_c,
        Blend::Mix => black_c + white_c,
    }
}

/// Denominator of a recovered color channel: alpha's numerator, doubled
/// for `Mix` because that mode halves the averaged numerator.
pub open spec fn spec_color_den(alpha_num: int, blend: Blend) -> int {
    match blend {
        Blend::Mix => 2 * alpha_num,
        _ => alpha_num,
    }
}

/// Recovers unpremultiplied color and alpha from one pixel's sample over a
/// black background and the same pixel's sample over a white background.
/// Channel values are quantized to `0 ..= max`; the result is exact.
///
/// Alpha is derived from the red channel only and clamped to `[0, 1]`;
/// when alpha is zero the color is indeterminate and all color channels
/// are zero by convention.
pub fn recover(black: Sample, white: Sample, max: u16, blend: Blend) -> (p: RecoveredPixel)
    requires
        max >= 1,
        black.r <= max,
        black.g <= max,
        black.b <= max,
        white.r <= max,
        white.g <= max,
        white.b <= max,
    ensures
        p.alpha.den == max,
        p.alpha.num == spec_alpha_num(black.r as int, white.r as int, max as int),
        p.alpha.num <= max,
        p.alpha.num == 0 ==> p.r.num == 0 && p.g.num == 0 && p.b.num == 0,
        p.alpha.num > 0 ==> {
            &&& p.r.num == spec_color_num(black.r as int, white.r as int, blend)
            &&& p.g.num == spec_color_num(black.g as int, white.g as int, blend)
            &&& p.b.num == spec_color_num(black.b as int, white.b as int, blend)
            &&& p.r.den == spec_color_den(p.alpha.num as int, blend)
            &&& p.g.den == spec_color_den(p.alpha.num as int, blend)
            &&& p.b.den == spec_color_den(p.alpha.num as int, blend)
        },
        p.r.wf() && p.g.wf() && p.b.wf() && p.alpha.wf(),
{
    let raw: u32 = black.r as u32 + max as u32 - white.r as u32;
    let a: u32 = if raw > max as u32 {
        max as u32
    } else {
        raw
    };
    let alpha = Rat { num: a, den: max as u32 };
    if a == 0 {
        let zero = Rat { num: 0, den: 1 };
        RecoveredPixel { r: zero, g: zero, b: zero, alpha }
    } else {
        match blend {
            Blend::White => RecoveredPixel {
                r: Rat { num: white.r as u32, den: a },
                g: Rat { num: white.g as u32, den: a },
                b: Rat { num: white.b as u32, den: a },
                alpha,
            },
            Blend::Black => RecoveredPixel {
                r: Rat { num: black.r as u32, den: a },
                g: Rat { num: black.g as u32, den: a },
                b: Rat { num: black.b as u32, den: a },
                alpha,
            },
            Blend::Mix => RecoveredPixel {
                r: Rat { num: black.r as u32 + white.r as u32, den: 2 * a },
                g: Rat { num: black.g as u32 + white.g as u32, den: 2 * a },
                b: Rat { num: black.b as u32 + white.b as u32, den: 2 * a },
                alpha,
            },
        }
    }
}

/// Quantization of a rational to the internal 16-bit range: the integer
/// part of `q * 65535`, saturated at 65535 so that out-of-range recovered
/// values clip to the maximum instead of wrapping.
pub open spec fn spec_quant16(num: int, den: int) -> int
    recommends
        den >= 1,
{
    if num * 65535 / den > 65535 {
        65535
    } else {
        num * 65535 / den
    }
}

/// Quantizes a recovered rational channel value to an unsigned 16-bit
/// integer, truncating toward zero and saturating at the maximum.
pub fn quantize16(q: Rat) -> (v: u16)
    requires
        q.wf(),
    ensures
        v == spec_quant16(q.num as int, q.den as int),
{
    let t: u64 = (q.num as u64) * 65535 / (q.den as u64);
    if t > 65535 {
        65535u16
    } else {
        t as u16
    }
}

/// One pixel of the high-precision intermediate raster: 16-bit RGBA.
#[derive(Clone, Copy, PartialEq, Eq, Structural, Debug)]
pub struct Pixel16 {
    pub r: u16,
    pub g: u16,
    pub b: u16,
    pub a: u16,
}

/// The whole per-pixel step of the combiner on 16-bit samples: recovery
/// followed by quantization of each channel back to 16 bits.
pub open spec fn spec_transform_pixel(black: Sample, white: Sample, blend: Blend) -> Pixel16 {
    let a = spec_alpha_num(black.r as int, white.r as int, 65535);
    if a == 0 {
        Pixel16 { r: 0, g: 0, b: 0, a: 0 }
    } else {
        let den = spec_color_den(a, blend);
        Pixel16 {
            r: spec_quant16(spec_color_num(black.r as int, white.r as int, blend), den) as u16,
            g: spec_quant16(spec_color_num(black.g as int, white.g as int, blend), den) as u16,
            b: spec_quant16(spec_color_num(black.b as int, white.b as int, blend), den) as u16,
            a: a as u16,
        }
    }
}

/// Applies the transform to one pixel of the 16-bit input rasters and
/// quantizes the result to one 16-bit RGBA pixel of the intermediate
/// raster.
pub fn transform_pixel(black: Sample, white: Sample, blend: Blend) -> (p: Pixel16)
    ensures
        p == spec_transform_pixel(black, white, blend),
{
    let rec = recover(black, white, 65535, blend);
    let r = quantize16(rec.r);
    let g = quantize16(rec.g);
    let b = quantize16(rec.b);
    let a = quantize16(rec.alpha);
    proof {
        let an = spec_alpha_num(black.r as int, white.r as int, 65535);
        assert(an * 65535 / 65535 == an) by (nonlinear_arith)
            requires
                0 <= an;
        if an == 0 {
            assert(0 * 65535 / 1 == 0);
        }
    }
    Pixel16 { r, g, b, a }
}

} // verus!
