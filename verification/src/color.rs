//! Exact fixed-point color values and bilinear blending.
//!
//! A decoded channel byte `b` is normalized by the (deliberate) divisor
//! `255.99`, i.e. to the rational `100 * b / 25599`.  Bilinear blending then
//! multiplies by two interpolation weights with denominator `2^16` each, so
//! every color this crate produces is an exact rational with the common
//! denominator `25599 * 2^32` ([`COLOR_DEN`]).  A channel carries only the
//! numerator; `COLOR_DEN` itself is the value one.

use vstd::prelude::*;

verus! {

/// Denominator of every channel numerator: the value one.
pub const COLOR_DEN: u64 = 25599 * 0x1_0000_0000;

/// Channel numerator of a single byte count: a byte `b` normalizes to
/// `b / 255.99 == (COLOR_SCALE * b) / COLOR_DEN`.
pub const COLOR_SCALE: u64 = 100 * 0x1_0000_0000;

/// Denominator of fixed-point texture coordinates and blend weights.
pub const FRAC_ONE: u64 = 0x1_0000;

/// An RGBA color.  Each channel is the numerator of a rational over
/// [`COLOR_DEN`] and lies in `[0, COLOR_DEN]`, i.e. the value is in `[0, 1]`.
#[derive(Clone, Copy, Debug, PartialEq, Eq, Structural)]
pub struct Rgba {
    pub r: u64,
    pub g: u64,
    pub b: u64,
    pub a: u64,
}

/// The normalized value of channel byte `b`: the numerator of `b / 255.99`
/// over [`COLOR_DEN`].
pub open spec fn channel_value(b: int) -> int {
    COLOR_SCALE * b
}

/// Linear interpolation `a * (1 - t) + b * t` over numerators, where the
/// weight `t` has denominator [`FRAC_ONE`].  The result's denominator is the
/// operands' denominator times [`FRAC_ONE`].
pub open spec fn lerp_num(a: int, b: int, t: int) -> int {
    (FRAC_ONE - t) * a + t * b
}

/// The bilinear blend of four channel bytes: horizontally first with weight
/// `fx`, then vertically with weight `fy` (both over [`FRAC_ONE`]), and
/// scaled by the `255.99` normalization.  The result is a channel numerator
/// over [`COLOR_DEN`]; blending four equal bytes `b` gives exactly
/// `channel_value(b)`.
pub open spec fn bilerp(tl: int, tr: int, bl: int, br: int, fx: int, fy: int) -> int {
    100 * lerp_num(lerp_num(tl, tr, fx), lerp_num(bl, br, fx), fy)
}

/// A weighted mean of two values within `[lo, hi]` stays within
/// `[one * lo, one * hi]`.
proof fn lemma_affine_bounds(a: int, b: int, t: int, one: int, lo: int, hi: int)
    by (nonlinear_arith)
    requires
        0 <= t <= one,
        lo <= a <= hi,
        lo <= b <= hi,
    ensures
        one * lo <= (one - t) * a + t * b <= one * hi,
{
}

/// One interpolation step keeps the value within the scaled bounds of its
/// two endpoints.
pub proof fn lemma_lerp_bounds(a: int, b: int, t: int, lo: int, hi: int)
    requires
        0 <= t <= FRAC_ONE,
        lo <= a <= hi,
        lo <= b <= hi,
    ensures
        FRAC_ONE * lo <= lerp_num(a, b, t) <= FRAC_ONE * hi,
{
    lemma_affine_bounds(a, b, t, FRAC_ONE as int, lo, hi);
}

/// The convex-hull bound of bilinear blending: if all four contributing
/// bytes lie in `[lo, hi]`, the blended channel lies between the normalized
/// values of `lo` and `hi`.
pub proof fn lemma_bilerp_bounds(tl: int, tr: int, bl: int, br: int, fx: int, fy: int, lo: int, hi: int)
    requires
        0 <= fx <= FRAC_ONE,
        0 <= fy <= FRAC_ONE,
        lo <= tl <= hi,
        lo <= tr <= hi,
        lo <= bl <= hi,
        lo <= br <= hi,
    ensures
        channel_value(lo) <= bilerp(tl, tr, bl, br, fx, fy) <= channel_value(hi),
{
    let top = lerp_num(tl, tr, fx);
    let bottom = lerp_num(bl, br, fx);
    lemma_lerp_bounds(tl, tr, fx, lo, hi);
    lemma_lerp_bounds(bl, br, fx, lo, hi);
    lemma_lerp_bounds(top, bottom, fy, 0x1_0000 * lo, 0x1_0000 * hi);
    assert(FRAC_ONE * (0x1_0000 * lo) == 0x1_0000_0000 * lo);
    assert(FRAC_ONE * (0x1_0000 * hi) == 0x1_0000_0000 * hi);
}

} // verus!
