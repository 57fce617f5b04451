//! The two reductions of a colour raster to a luma raster, pixel by pixel.

use vstd::prelude::*;
use crate::pixel::{gray_of, luma, luma_of, Rgb};
use crate::raster::{rgb_at, ColorRaster, ColorRasterView, LumaRaster, LumaRasterView};

verus! {

/// The noir reduction of a raster: the same size, and each pixel's noir sample in its place.
pub open spec fn noir_raster(input: ColorRasterView) -> LumaRasterView {
    LumaRasterView {
        width: input.width,
        height: input.height,
        samples: input.pixels.map_values(|p: Rgb| luma_of(p)),
    }
}

/// The grayscale reduction of a raster: the same size, and each pixel's grayscale sample
/// in its place.
pub open spec fn gray_raster(input: ColorRasterView) -> LumaRasterView {
    LumaRasterView {
        width: input.width,
        height: input.height,
        samples: input.pixels.map_values(|p: Rgb| gray_of(p)),
    }
}

/// Reduces a colour raster to its noir luma raster: each output sample is
/// `0.2126 R + 0.7152 G + 0.0722 B` of the pixel in the same place, rounded to the
/// nearest integer with halves away from zero and clamped to `[0, 255]`.
pub fn transform_noir(input: &ColorRaster) -> (r: LumaRaster)
    requires
        input.wf(),
    ensures
        r.wf(),
        r@.width == input@.width,
        r@.height == input@.height,
        r@ == noir_raster(input@),
{
    let pixels: &Vec<Rgb> = input.pixels();
    let mut samples: Vec<u8> = Vec::new();
    let mut i: usize = 0;
    while i < pixels.len()
        invariant
            i <= pixels@.len(),
            samples@.len() == i,
            forall|j: int| 0 <= j < i ==> samples@[j] == luma_of(pixels@[j]),
        decreases pixels@.len() - i,
    {
        samples.push(luma(pixels[i]));
        i = i + 1;
    }
    assert(samples@ =~= input@.pixels.map_values(|p: Rgb| luma_of(p)));
    LumaRaster::from_parts(input.width(), input.height(), samples)
}

/// The noir reduction depends on nothing but its input, and on each pixel alone: rasters
/// of one size give equal samples wherever their pixels are equal, so running it again on
/// the same raster gives the same raster, sample for sample.
pub proof fn lemma_noir_deterministic(a: ColorRasterView, b: ColorRasterView)
    requires
        a.pixels.len() == b.pixels.len(),
    ensures
        forall|i: int|
            0 <= i < a.pixels.len() && a.pixels[i] == b.pixels[i] ==> noir_raster(a).samples[i]
                == noir_raster(b).samples[i],
        a == b ==> noir_raster(a) == noir_raster(b),
{
}

/// Relies on image::imageops::grayscale (image 0.24) over the 8-bit RGB image that
/// image::ImageBuffer::from_raw builds of the bytes, read back with into_raw: the pixels
/// keep their row-major places, and each sample is `(2126 R + 7152 G + 722 B) / 10000`,
/// rounded down.
#[verifier::external_body]
fn grayscale_rgb8(width: u32, height: u32, rgb: Vec<u8>) -> (r: Vec<u8>)
    requires
        width > 0,
        rgb@.len() == 3 * (width * height),
    ensures
        r@.len() == width * height,
        forall|i: int| 0 <= i < width * height ==> r@[i] == gray_of(rgb_at(rgb@, i)),
{
    let buf: image::RgbImage = image::ImageBuffer::from_raw(width, height, rgb).unwrap();
    image::imageops::grayscale(&buf).into_raw()
}

/// Reduces a colour raster with the `image` crate's standard grayscale: each output
/// sample is `0.2126 R + 0.7152 G + 0.0722 B` of the pixel in the same place, rounded down.
pub fn transform_gray(input: &ColorRaster) -> (r: LumaRaster)
    requires
        input.wf(),
    ensures
        r.wf(),
        r@.width == input@.width,
        r@.height == input@.height,
        r@ == gray_raster(input@),
{
    let bytes: Vec<u8> = input.to_rgb_bytes();
    let samples: Vec<u8> = grayscale_rgb8(input.width(), input.height(), bytes);
    assert(samples@ =~= input@.pixels.map_values(|p: Rgb| gray_of(p)));
    LumaRaster::from_parts(input.width(), input.height(), samples)
}

} // verus!
