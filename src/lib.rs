//! Reduces colour rasters to single-channel luma rasters: a "noir" reduction with
//! BT.709 weights and rounding, and the `image` crate's own grayscale for comparison.

mod pixel;
mod raster;
mod transform;

pub use pixel::{
    clamp, clamp_spec, gray_of, lemma_luma_in_range, lemma_neutral_gray_kept,
    lemma_noir_rounds_gray, luma, luma_of, weighted_sum, Rgb, BLUE_WEIGHT, GREEN_WEIGHT,
    RED_WEIGHT, WEIGHT_SCALE,
};
pub use raster::{rgb_at, valid_size, ColorRaster, ColorRasterView, LumaRaster, LumaRasterView};
pub use transform::{
    gray_raster, lemma_noir_deterministic, noir_raster, transform_gray, transform_noir,
};
