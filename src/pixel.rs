//! One pixel: its colour samples, its weighted luma, and the clamp to an 8-bit sample.

use vstd::prelude::*;

verus! {

/// Weight of the red sample in the luma, in ten-thousandths (BT.709).
pub const RED_WEIGHT: u32 = 2126;

/// Weight of the green sample in the luma, in ten-thousandths (BT.709).
pub const GREEN_WEIGHT: u32 = 7152;

/// Weight of the blue sample in the luma, in ten-thousandths (BT.709).
pub const BLUE_WEIGHT: u32 = 722;

/// The denominator of the weights. They sum to it, so a neutral gray keeps its level.
pub const WEIGHT_SCALE: u32 = 10000;

/// The colour samples of one pixel; any alpha sample is left out.
#[derive(Clone, Copy, Debug, PartialEq, Eq, Structural)]
pub struct Rgb {
    pub r: u8,
    pub g: u8,
    pub b: u8,
}

/// The luma of a pixel, in ten-thousandths of a sample step.
pub open spec fn weighted_sum(p: Rgb) -> int {
    RED_WEIGHT * p.r + GREEN_WEIGHT * p.g + BLUE_WEIGHT * p.b
}

/// A luma given in ten-thousandths of a step, brought to a sample: below 0 it is 0,
/// above 255 it is 255, and in between it is rounded to the nearest integer, halves
/// away from zero.
pub open spec fn clamp_spec(v: int) -> int {
    if v < 0 {
        0
    } else if v > 255 * WEIGHT_SCALE {
        255
    } else {
        (v + WEIGHT_SCALE / 2) / WEIGHT_SCALE as int
    }
}

/// The noir sample of a pixel: its weighted luma, clamped and rounded.
pub open spec fn luma_of(p: Rgb) -> u8 {
    clamp_spec(weighted_sum(p)) as u8
}

/// The grayscale sample of a pixel: its weighted luma, rounded down.
pub open spec fn gray_of(p: Rgb) -> u8 {
    (weighted_sum(p) / WEIGHT_SCALE as int) as u8
}

/// Brings `val`, a luma in ten-thousandths of a sample step, to an 8-bit sample.
pub fn clamp(val: i64) -> (r: u8)
    ensures
        r as int == clamp_spec(val as int),
{
    if val < 0 {
        0
    } else if val > 255 * WEIGHT_SCALE as i64 {
        255
    } else {
        ((val + (WEIGHT_SCALE / 2) as i64) / WEIGHT_SCALE as i64) as u8
    }
}

/// The noir sample of one pixel.
pub fn luma(p: Rgb) -> (r: u8)
    ensures
        r == luma_of(p),
{
    let red: u32 = p.r as u32;
    let green: u32 = p.g as u32;
    let blue: u32 = p.b as u32;
    assert(RED_WEIGHT * red + GREEN_WEIGHT * green + BLUE_WEIGHT * blue <= 255 * WEIGHT_SCALE)
        by (nonlinear_arith)
        requires
            red <= 255,
            green <= 255,
            blue <= 255,
    ;
    let sum: u32 = RED_WEIGHT * red + GREEN_WEIGHT * green + BLUE_WEIGHT * blue;
    clamp(sum as i64)
}

/// Clamping never saturates on a pixel of 8-bit samples: its weighted luma lies within
/// `[0, 255]`, and its noir sample is that luma rounded to the nearest integer.
pub proof fn lemma_luma_in_range(p: Rgb)
    ensures
        0 <= weighted_sum(p) <= 255 * WEIGHT_SCALE,
        luma_of(p) as int == (weighted_sum(p) + WEIGHT_SCALE / 2) / WEIGHT_SCALE as int,
        0 <= luma_of(p) <= 255,
{
    let (r, g, b) = (p.r as int, p.g as int, p.b as int);
    assert(0 <= RED_WEIGHT * r + GREEN_WEIGHT * g + BLUE_WEIGHT * b <= 255 * WEIGHT_SCALE)
        by (nonlinear_arith)
        requires
            0 <= r <= 255,
            0 <= g <= 255,
            0 <= b <= 255,
    ;
}

/// The weights sum to one, so a neutral gray pixel keeps its level under both reductions:
/// white stays 255 and black stays 0.
pub proof fn lemma_neutral_gray_kept(p: Rgb)
    requires
        p.r == p.g,
        p.g == p.b,
    ensures
        luma_of(p) == p.r,
        gray_of(p) == p.r,
{
    assert(weighted_sum(p) == WEIGHT_SCALE * p.r);
}

/// The noir sample rounds where the grayscale sample rounds down, so the two differ by
/// at most one, the noir sample never the lower.
pub proof fn lemma_noir_rounds_gray(p: Rgb)
    ensures
        gray_of(p) <= luma_of(p) <= gray_of(p) + 1,
{
    lemma_luma_in_range(p);
}

} // verus!
