//! Rasters: a colour raster read by the transforms and a single-channel luma raster
//! that they produce, both row-major with positive width and height.

use vstd::prelude::*;
use crate::pixel::Rgb;

verus! {

/// What a colour raster holds: its size and its pixels, row by row.
pub ghost struct ColorRasterView {
    pub width: nat,
    pub height: nat,
    pub pixels: Seq<Rgb>,
}

/// What a luma raster holds: its size and one sample per pixel, row by row.
pub ghost struct LumaRasterView {
    pub width: nat,
    pub height: nat,
    pub samples: Seq<u8>,
}

/// The pixel that starts at byte `3 * i` of a buffer of interleaved red, green and blue samples.
pub open spec fn rgb_at(bytes: Seq<u8>, i: int) -> Rgb {
    Rgb { r: bytes[3 * i], g: bytes[3 * i + 1], b: bytes[3 * i + 2] }
}

/// A colour raster of `width` by `height` pixels.
pub struct ColorRaster {
    width: u32,
    height: u32,
    pixels: Vec<Rgb>,
}

/// A single-channel raster of `width` by `height` 8-bit samples.
pub struct LumaRaster {
    width: u32,
    height: u32,
    samples: Vec<u8>,
}

impl View for ColorRaster {
    type V = ColorRasterView;

    closed spec fn view(&self) -> ColorRasterView {
        ColorRasterView { width: self.width as nat, height: self.height as nat, pixels: self.pixels@ }
    }
}

impl View for LumaRaster {
    type V = LumaRasterView;

    closed spec fn view(&self) -> LumaRasterView {
        LumaRasterView { width: self.width as nat, height: self.height as nat, samples: self.samples@ }
    }
}

/// Whether a size and a count of pixels make a raster: both sides positive and within
/// `u32`, and one pixel for each place.
pub open spec fn valid_size(width: nat, height: nat, len: nat) -> bool {
    &&& 0 < width <= u32::MAX
    &&& 0 < height <= u32::MAX
    &&& len == width * height
}

/// The number of pixels of a `width` by `height` raster.
fn pixel_count(width: u32, height: u32) -> (r: u64)
    ensures
        r == width * height,
{
    assert(width as u64 * height as u64 <= u32::MAX as u64 * u32::MAX as u64) by (nonlinear_arith);
    width as u64 * height as u64
}

impl ColorRaster {
    /// Every colour raster has a valid size.
    pub open spec fn wf(&self) -> bool {
        valid_size(self@.width, self@.height, self@.pixels.len())
    }

    /// A raster of the given pixels, row by row; `None` unless both sides are positive
    /// and there is exactly one pixel for each place.
    pub fn new(width: u32, height: u32, pixels: Vec<Rgb>) -> (r: Option<ColorRaster>)
        ensures
            r is Some <==> valid_size(width as nat, height as nat, pixels@.len()),
            r matches Some(c) ==> c.wf() && c@ == (ColorRasterView {
                width: width as nat,
                height: height as nat,
                pixels: pixels@,
            }),
    {
        if width == 0 || height == 0 || pixels.len() as u64 != pixel_count(width, height) {
            None
        } else {
            Some(ColorRaster { width, height, pixels })
        }
    }

    /// A raster read from interleaved red, green and blue bytes, three per pixel, row by
    /// row; `None` unless both sides are positive and there are exactly three bytes for
    /// each place.
    pub fn from_rgb_bytes(width: u32, height: u32, bytes: &Vec<u8>) -> (r: Option<ColorRaster>)
        ensures
            r is Some <==> (valid_size(width as nat, height as nat, bytes@.len() / 3)
                && bytes@.len() % 3 == 0),
            r matches Some(c) ==> {
                &&& c.wf()
                &&& c@.width == width
                &&& c@.height == height
                &&& forall|i: int| 0 <= i < c@.pixels.len() ==> c@.pixels[i] == rgb_at(bytes@, i)
            },
    {
        if width == 0 || height == 0 || bytes.len() % 3 != 0 || (bytes.len() / 3) as u64
            != pixel_count(width, height) {
            return None;
        }
        let n: usize = bytes.len() / 3;
        assert(bytes@.len() == 3 * n);
        let mut pixels: Vec<Rgb> = Vec::new();
        let mut i: usize = 0;
        while i < n
            invariant
                bytes@.len() == 3 * n,
                bytes@.len() <= usize::MAX,
                i <= n,
                pixels@.len() == i,
                forall|j: int| 0 <= j < i ==> pixels@[j] == rgb_at(bytes@, j),
            decreases n - i,
        {
            pixels.push(Rgb { r: bytes[3 * i], g: bytes[3 * i + 1], b: bytes[3 * i + 2] });
            i = i + 1;
        }
        Some(ColorRaster { width, height, pixels })
    }

    /// The interleaved red, green and blue bytes of the raster, three per pixel, row by row.
    pub fn to_rgb_bytes(&self) -> (r: Vec<u8>)
        requires
            self.wf(),
        ensures
            r@.len() == 3 * self@.pixels.len(),
            forall|i: int| 0 <= i < self@.pixels.len() ==> rgb_at(r@, i) == self@.pixels[i],
    {
        let mut bytes: Vec<u8> = Vec::new();
        let mut i: usize = 0;
        while i < self.pixels.len()
            invariant
                i <= self.pixels@.len(),
                bytes@.len() == 3 * i,
                forall|j: int| 0 <= j < i ==> rgb_at(bytes@, j) == self.pixels@[j],
            decreases self.pixels@.len() - i,
        {
            let p: Rgb = self.pixels[i];
            let ghost prev = bytes@;
            bytes.push(p.r);
            bytes.push(p.g);
            bytes.push(p.b);
            assert forall|j: int| 0 <= j <= i implies rgb_at(bytes@, j) == self.pixels@[j] by {
                if j < i {
                    assert(rgb_at(prev, j) == self.pixels@[j]);
                    assert(rgb_at(bytes@, j) == rgb_at(prev, j));
                }
            }
            i = i + 1;
        }
        bytes
    }

    /// The number of pixels in a row.
    pub fn width(&self) -> (r: u32)
        ensures
            r == self@.width,
    {
        self.width
    }

    /// The number of rows.
    pub fn height(&self) -> (r: u32)
        ensures
            r == self@.height,
    {
        self.height
    }

    /// The pixels, row by row.
    pub fn pixels(&self) -> (r: &Vec<Rgb>)
        ensures
            r@ == self@.pixels,
    {
        &self.pixels
    }
}

impl LumaRaster {
    /// Every luma raster has a valid size.
    pub open spec fn wf(&self) -> bool {
        valid_size(self@.width, self@.height, self@.samples.len())
    }

    /// The raster of the given samples, row by row, for a size that the caller has checked.
    pub(crate) fn from_parts(width: u32, height: u32, samples: Vec<u8>) -> (r: LumaRaster)
        requires
            valid_size(width as nat, height as nat, samples@.len()),
        ensures
            r.wf(),
            r@ == (LumaRasterView { width: width as nat, height: height as nat, samples: samples@ }),
    {
        LumaRaster { width, height, samples }
    }

    /// The number of pixels in a row.
    pub fn width(&self) -> (r: u32)
        ensures
            r == self@.width,
    {
        self.width
    }

    /// The number of rows.
    pub fn height(&self) -> (r: u32)
        ensures
            r == self@.height,
    {
        self.height
    }

    /// The samples, row by row.
    pub fn samples(&self) -> (r: &Vec<u8>)
        ensures
            r@ == self@.samples,
    {
        &self.samples
    }
}

} // verus!
