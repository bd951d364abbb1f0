//! Round-trip lemmas of the transform: on synthetic data rendered from a
//! known alpha and a known unpremultiplied color, the transform gives the
//! scene back.

use vstd::prelude::*;

use vstd::arithmetic::div_mod::{
    lemma_div_is_ordered, lemma_div_multiples_vanish, lemma_div_pos_is_pos,
    lemma_fundamental_div_mod, lemma_mod_division_less_than_divisor,
};
use vstd::arithmetic::mul::{lemma_mul_inequality, lemma_mul_is_commutative, lemma_mul_nonnegative};

use crate::transform::{spec_alpha_num, spec_quant16, spec_transform_pixel, Blend, Pixel16, Sample};

verus! {

/// Recovered alpha is exact on synthetic data, whatever the scene's color.
/// A pixel of true alpha `alpha` rendered over black shows some red value
/// `b_r <= alpha`, and the same pixel rendered over white shows
/// `b_r + 1 - alpha` more, so the transform's red-channel difference gives
/// `alpha` back exactly (in 16-bit quantized form: over denominator
/// 65535).
pub proof fn lemma_alpha_recovered_exactly(b_r: int, alpha: int)
    requires
        0 <= b_r <= alpha <= 65535,
    ensures
        spec_alpha_num(b_r, b_r + 65535 - alpha, 65535) == alpha,
{
}

/// Round trip under `Blend::Black`: a synthetic scene of true alpha
/// `alpha > 0` and true unpremultiplied color `(cr, cg, cb)`, rendered
/// over black as `color * alpha` and over white as
/// `color * alpha + (1 - alpha)` (all channels quantized to denominator
/// 65535, exactly representable by the divisibility premises), is
/// recovered exactly: the transform returns the true color and the true
/// alpha.
pub proof fn lemma_round_trip_from_black(alpha: int, cr: int, cg: int, cb: int)
    requires
        0 < alpha <= 65535,
        0 <= cr <= 65535,
        0 <= cg <= 65535,
        0 <= cb <= 65535,
        (cr * alpha) % 65535 == 0,
        (cg * alpha) % 65535 == 0,
        (cb * alpha) % 65535 == 0,
    ensures
        ({
            let black = (Sample {
                r: (cr * alpha / 65535) as u16,
                g: (cg * alpha / 65535) as u16,
                b: (cb * alpha / 65535) as u16,
            });
            let white = (Sample {
                r: (cr * alpha / 65535 + 65535 - alpha) as u16,
                g: (cg * alpha / 65535 + 65535 - alpha) as u16,
                b: (cb * alpha / 65535 + 65535 - alpha) as u16,
            });
            spec_transform_pixel(black, white, Blend::Black) == (Pixel16 {
                r: cr as u16,
                g: cg as u16,
                b: cb as u16,
                a: alpha as u16,
            })
        }),
{
    lemma_channel_recovered(alpha, cr);
    lemma_channel_recovered(alpha, cg);
    lemma_channel_recovered(alpha, cb);
}

/// One color channel of the round trip under `Blend::Black`: rendering
/// quantizes `c * alpha` to the numerator `c * alpha / 65535`, and
/// dividing that numerator by the recovered alpha quantizes back to `c`
/// exactly when `c * alpha` is a multiple of 65535.
pub proof fn lemma_channel_recovered(alpha: int, c: int)
    requires
        0 < alpha <= 65535,
        0 <= c <= 65535,
        (c * alpha) % 65535 == 0,
    ensures
        0 <= c * alpha / 65535 <= alpha,
        (c * alpha / 65535) * 65535 / alpha == c,
{
    let bn = c * alpha / 65535;
    lemma_mul_nonnegative(c, alpha);
    lemma_div_pos_is_pos(c * alpha, 65535);
    lemma_mul_inequality(c, 65535, alpha);
    lemma_div_is_ordered(c * alpha, 65535 * alpha, 65535);
    lemma_div_multiples_vanish(alpha, 65535);
    assert(bn <= alpha);
    lemma_fundamental_div_mod(c * alpha, 65535);
    assert(c * alpha == 65535 * bn);
    lemma_mul_is_commutative(65535, bn);
    lemma_mul_is_commutative(c, alpha);
    assert(bn * 65535 / alpha == alpha * c / alpha);
    lemma_mul_is_commutative(alpha, c);
    lemma_div_multiples_vanish(c, alpha);
}

/// When the rendering of a synthetic scene is not exactly representable
/// on the 16-bit grid, the channel recovered under `Blend::Black` never
/// overshoots the true color, and undershoots it by at most
/// `65535 / alpha + 1` sixteen-bit steps: the rendering quantizes the
/// premultiplied channel, so the error of the quotient grows as alpha
/// shrinks.  (For alpha one this is the one-step bound; for small alpha
/// the recovered color is correspondingly coarse.)
pub proof fn lemma_round_trip_error_bound(alpha: int, c: int)
    requires
        0 < alpha <= 65535,
        0 <= c <= 65535,
    ensures
        ({
            let bn = c * alpha / 65535;
            let q = spec_quant16(bn, alpha);
            &&& q <= c
            &&& c - q <= 65535int / alpha + 1
        }),
{
    let ca = c * alpha;
    let bn = ca / 65535;
    let r1 = ca % 65535;
    lemma_mul_nonnegative(c, alpha);
    lemma_fundamental_div_mod(ca, 65535);
    lemma_mod_division_less_than_divisor(ca, 65535);
    lemma_mul_is_commutative(65535, bn);
    assert(bn * 65535 == ca - r1);

    // the quotient never overshoots: bn * 65535 <= c * alpha
    lemma_div_is_ordered(ca - r1, ca, alpha);
    lemma_mul_is_commutative(c, alpha);
    lemma_div_multiples_vanish(c, alpha);
    assert(bn * 65535 / alpha <= c);

    // the quotient undershoots by at most one step of the recovered alpha
    let k = 65535int / alpha;
    let r2 = 65535int % alpha;
    lemma_fundamental_div_mod(65535int, alpha);
    lemma_mod_division_less_than_divisor(65535int, alpha);
    assert(alpha * (c - k - 1) <= ca - 65535 + 1) by (nonlinear_arith)
        requires
            ca == c * alpha,
            65535 == alpha * k + r2,
            0 <= r2 < alpha;
    lemma_div_is_ordered(alpha * (c - k - 1), ca - r1, alpha);
    lemma_div_multiples_vanish(c - k - 1, alpha);
    assert(c - k - 1 <= bn * 65535 / alpha);

    // saturation does not fire here, so the bound carries to the result
    lemma_div_pos_is_pos(ca, 65535);
    lemma_mul_inequality(c, 65535, alpha);
    lemma_div_is_ordered(ca, 65535 * alpha, 65535);
    lemma_div_multiples_vanish(alpha, 65535);
    assert(bn <= alpha);
    lemma_mul_inequality(bn, alpha, 65535);
    lemma_div_is_ordered(bn * 65535, alpha * 65535, alpha);
    lemma_mul_is_commutative(alpha, 65535);
    lemma_div_multiples_vanish(65535int, alpha);
    assert(bn * 65535 / alpha <= 65535);
}

/// A fully opaque pixel comes back unchanged under every blend mode: when
/// the two samples are identical the recovered alpha is one and the
/// recovered color is the sample itself, for `White`, `Black` and `Mix`
/// alike.  This is the `Blend::White` side of the round trip: the white
/// formula divides the white sample by alpha, so it reproduces the true
/// color exactly on the opaque pixels.
pub proof fn lemma_opaque_pixel_unchanged(s: Sample, blend: Blend)
    ensures
        spec_transform_pixel(s, s, blend) == (Pixel16 { r: s.r, g: s.g, b: s.b, a: 65535u16 }),
{
    assert(spec_alpha_num(s.r as int, s.r as int, 65535) == 65535);
    lemma_opaque_channel(s.r as int);
    lemma_opaque_channel(s.g as int);
    lemma_opaque_channel(s.b as int);
}

/// One channel of an opaque pixel: quantizing `c / 1` (or the `Mix`
/// average `2c / 2`) back to 16 bits returns `c`.
pub proof fn lemma_opaque_channel(c: int)
    requires
        0 <= c <= 65535,
    ensures
        c * 65535 / 65535 == c,
        (c + c) * 65535 / (2 * 65535int) == c,
{
    lemma_mul_is_commutative(c, 65535);
    lemma_div_multiples_vanish(c, 65535);
    assert((c + c) * 65535 == (2 * 65535int) * c) by (nonlinear_arith);
    lemma_div_multiples_vanish(c, 2 * 65535int);
}

} // verus!
