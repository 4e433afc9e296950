//! PNG serialization of a canvas, through the `png` crate.

use vstd::prelude::*;
use crate::canvas::{Canvas, cwf, rgba_s};

verus! {

/// The PNG byte stream the `png` crate produces for an RGBA8 image of the
/// given dimensions and pixel bytes; the encoder is deterministic, so this
/// is a function of its arguments alone.
pub uninterp spec fn png_of(width: nat, height: nat, data: Seq<u8>) -> Seq<u8>;

/// Relies on png::Encoder and png::Writer::write_image_data: encodes an
/// RGBA8 image into an in-memory byte stream. With nonzero dimensions and a
/// buffer of exactly `4 * width * height` bytes, neither call reports an
/// error (the sink is a growable vector), so the stream is complete.
#[verifier::external_body]
fn png_encode(width: u32, height: u32, data: &Vec<u8>) -> (r: Vec<u8>)
    requires
        width > 0,
        height > 0,
        data@.len() == 4 * width * height,
    ensures
        r@ == png_of(width as nat, height as nat, data@),
{
    let mut out: Vec<u8> = Vec::new();
    let mut encoder = png::Encoder::new(&mut out, width, height);
    encoder.set_color(png::ColorType::Rgba);
    encoder.set_depth(png::BitDepth::Eight);
    if let Ok(mut writer) = encoder.write_header() {
        let _ = writer.write_image_data(data);
    }
    out
}

/// Serializes a canvas to PNG bytes.
pub trait ToPNG {
    fn to_png(&self) -> Vec<u8>;
}

impl Canvas {
    /// The PNG image of this canvas: its RGBA bytes behind the encoder.
    pub fn png_bytes(&self) -> (r: Vec<u8>)
        requires
            cwf(*self),
            0 < self.width <= 4294967295,
            0 < self.height <= 4294967295,
        ensures
            r@ == png_of(self.width as nat, self.height as nat, rgba_s(self.pixels@)),
    {
        let rgba = self.to_rgba32();
        proof {
            assert(rgba@.len() == 4 * (self.width as int) * (self.height as int))
                by (nonlinear_arith)
                requires
                    rgba@.len() == 4 * self.pixels@.len(),
                    self.pixels@.len() == (self.width as int) * (self.height as int),
            ;
        }
        png_encode(self.width as u32, self.height as u32, &rgba)
    }
}

impl ToPNG for Canvas {
    /// The facade checks the grid invariant it cannot demand; a malformed
    /// or degenerate canvas serializes to nothing.
    fn to_png(&self) -> Vec<u8> {
        if 0 < self.width && self.width <= 46340 && 0 < self.height && self.height <= 46340 {
            proof {
                assert((self.width as int) * (self.height as int) <= 2147395600)
                    by (nonlinear_arith)
                    requires
                        0 <= (self.width as int) && (self.width as int) <= 46340,
                        0 <= (self.height as int) && (self.height as int) <= 46340,
                ;
            }
            if self.pixels.len() == self.width * self.height {
                return self.png_bytes();
            }
        }
        Vec::new()
    }
}

} // verus!
