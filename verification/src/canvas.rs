//! The pixel buffer a render writes into.
//!
//! A canvas is a row-major grid of colors. Quantization to output bytes
//! clamps each channel into `[0, 1]` and scales to `0..=255`, rounding to
//! nearest; `to_rgba32` lays the quantized pixels out as RGBA bytes with an
//! opaque alpha.

mod to_ppm;
mod to_png;

pub use to_ppm::{ToPPM, create_ppm_pixel_data, ppm_header_s, ppm_pixel_data_s, dec_spec};
pub use to_png::{ToPNG, png_of};

use vstd::prelude::*;
use crate::color::{Color, col, clamp1, black_spec};
use crate::scalar::{ONE};

verus! {

/// The fixed-point representation of 0.5, the rounding offset used when
/// quantizing a channel.
pub const CHANNEL_HALF: i64 = 2147483648;

#[derive(Debug, Clone)]
pub struct Canvas {
    pub width: usize,
    pub height: usize,
    pub pixels: Vec<Color>,
}

/// Exposes a raster's dimensions.
pub trait Dimensions {
    fn width(&self) -> usize;

    fn height(&self) -> usize;
}

impl Dimensions for Canvas {
    fn width(&self) -> (r: usize) {
        self.width
    }

    fn height(&self) -> (r: usize) {
        self.height
    }
}

/// Well-formed: one pixel per grid cell.
pub open spec fn cwf(c: Canvas) -> bool {
    c.pixels@.len() == c.width * c.height
}

/// A channel clamped into `[0, 1]` and scaled to `0..=255`, rounded to
/// nearest.
pub open spec fn quant(v: int) -> int {
    (clamp1(v, 0, ONE as int) * 255 + CHANNEL_HALF as int) / (ONE as int)
}

/// The RGBA byte layout of the quantized pixels, alpha fully opaque.
pub open spec fn rgba_s(pixels: Seq<Color>) -> Seq<u8>
    decreases pixels.len(),
{
    if pixels.len() == 0 {
        Seq::empty()
    } else {
        rgba_s(pixels.drop_last()) + seq![
            quant(col(pixels.last()).0) as u8,
            quant(col(pixels.last()).1) as u8,
            quant(col(pixels.last()).2) as u8,
            255u8,
        ]
    }
}

/// One channel quantized for output.
pub(crate) fn quant_channel(v: i64) -> (r: u8)
    ensures
        r as int == quant(v as int),
{
    let c: i64 = if v <= ONE {
        v
    } else {
        ONE
    };
    let c2: i64 = if c >= 0 {
        c
    } else {
        0
    };
    let q: u64 = ((c2 as u64) * 255 + (CHANNEL_HALF as u64)) / (ONE as u64);
    proof {
        assert((c2 as int) * 255 + (CHANNEL_HALF as int) < 18446744073709551616
            && ((c2 as int) * 255 + (CHANNEL_HALF as int)) / (ONE as int) <= 255)
            by (nonlinear_arith)
            requires
                0 <= c2 as int <= ONE as int,
                ONE as int == 4294967296,
                CHANNEL_HALF as int == 2147483648,
        ;
    }
    q as u8
}

impl Canvas {
    /// A canvas of black pixels.
    pub fn new(width: usize, height: usize) -> (r: Self)
        requires
            (width as int) * (height as int) <= usize::MAX as int,
        ensures
            r.width == width,
            r.height == height,
            cwf(r),
            forall|i: int| 0 <= i < r.pixels@.len() ==> col(#[trigger] r.pixels@[i]) == black_spec(),
    {
        let total: usize = width * height;
        let mut pixels: Vec<Color> = Vec::new();
        let mut k: usize = 0;
        while k < total
            invariant
                pixels@.len() == k,
                k <= total,
                forall|i: int| 0 <= i < k ==> col(#[trigger] pixels@[i]) == black_spec(),
            decreases total - k,
        {
            pixels.push(Color::black());
            k = k + 1;
        }
        Canvas { width, height, pixels }
    }

    /// The row-major index of a pixel.
    pub fn get_pixel_index(&self, x: usize, y: usize) -> (r: usize)
        requires
            x < self.width,
            y < self.height,
            cwf(*self),
        ensures
            r == y * self.width + x,
            r < self.pixels@.len(),
    {
        proof {
            assert((y as int) * (self.width as int) + (x as int) < (self.width as int)
                * (self.height as int)) by (nonlinear_arith)
                requires
                    0 <= (x as int) && (x as int) < (self.width as int),
                    0 <= (y as int) && (y as int) < (self.height as int),
            ;
        }
        let n = self.pixels.len();
        y * self.width + x
    }

    pub fn color_at(&self, x: usize, y: usize) -> (r: Color)
        requires
            x < self.width,
            y < self.height,
            cwf(*self),
        ensures
            r == self.pixels@[y * self.width + x],
    {
        let idx = self.get_pixel_index(x, y);
        self.pixels[idx]
    }

    pub fn write_pixel(&mut self, x: usize, y: usize, color: Color)
        requires
            x < old(self).width,
            y < old(self).height,
            cwf(*old(self)),
        ensures
            final(self).width == old(self).width,
            final(self).height == old(self).height,
            cwf(*final(self)),
            final(self).pixels@ == old(self).pixels@.update(
                (y * old(self).width + x) as int,
                color,
            ),
    {
        let index = self.get_pixel_index(x, y);
        self.pixels[index] = color;
    }

    /// The canvas as RGBA bytes, four per pixel with alpha 255.
    pub fn to_rgba32(&self) -> (r: Vec<u8>)
        ensures
            r@ == rgba_s(self.pixels@),
            r@.len() == 4 * self.pixels@.len(),
    {
        let n = self.pixels.len();
        let mut out: Vec<u8> = Vec::new();
        let mut k: usize = 0;
        while k < n
            invariant
                k <= n,
                n == self.pixels@.len(),
                out@.len() == 4 * k,
                out@ == rgba_s(self.pixels@.take(k as int)),
            decreases n - k,
        {
            let p = self.pixels[k];
            out.push(quant_channel(p.red));
            out.push(quant_channel(p.green));
            out.push(quant_channel(p.blue));
            out.push(255);
            proof {
                let taken = self.pixels@.take(k as int + 1);
                assert(taken.drop_last() =~= self.pixels@.take(k as int));
                assert(taken.last() == self.pixels@[k as int]);
                assert(out@ =~= rgba_s(taken));
            }
            k = k + 1;
        }
        proof {
            assert(self.pixels@.take(n as int) =~= self.pixels@);
        }
        out
    }
}

} // verus!
