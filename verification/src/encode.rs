//! Bitmap encoding: demultiply the rasterizer's pre-multiplied RGBA pixels
//! into straight-alpha bytes, then run them through the lossless optimizer.
#![allow(unused_imports)]
use vstd::prelude::*;

use crate::OgError;

verus! {

/// A fixed-size buffer of pre-multiplied RGBA pixels, one byte per channel.
pub struct PixelBuffer {
    pub width: u32,
    pub height: u32,
    pub data: Vec<u8>,
}

impl PixelBuffer {
    /// Four bytes per pixel, at least one pixel each way.
    pub open spec fn wf(&self) -> bool {
        &&& self.data@.len() == 4 * (self.width as int) * (self.height as int)
        &&& self.width >= 1
        &&& self.height >= 1
    }
}

/// One straight-alpha channel value from a pre-multiplied channel value `c`
/// and its alpha `a`: the channel divided by the alpha fraction `a / 255`,
/// rounded half-up and clamped; zero alpha yields zero, the standard
/// demultiply convention.
pub open spec fn demul_channel(c: u8, a: u8) -> u8 {
    if a == 0 {
        0u8
    } else {
        let v = (510 * (c as int) + (a as int)) / (2 * (a as int));
        if v > 255 {
            255u8
        } else {
            v as u8
        }
    }
}

/// The straight-alpha bytes for a pre-multiplied RGBA byte sequence, pixel by
/// pixel in R, G, B, A order.
pub open spec fn demultiplied(data: Seq<u8>) -> Seq<u8>
    decreases data.len(),
{
    if data.len() < 4 {
        Seq::empty()
    } else {
        seq![
            demul_channel(data[0], data[3]),
            demul_channel(data[1], data[3]),
            demul_channel(data[2], data[3]),
            data[3],
        ] + demultiplied(data.skip(4))
    }
}

pub proof fn lemma_demultiplied_len(data: Seq<u8>)
    requires
        data.len() % 4 == 0,
    ensures
        demultiplied(data).len() == data.len(),
    decreases data.len(),
{
    if data.len() >= 4 {
        lemma_demultiplied_len(data.skip(4));
    }
}

fn demul_channel_exec(c: u8, a: u8) -> (r: u8)
    ensures
        r == demul_channel(c, a),
{
    if a == 0 {
        0
    } else {
        let v: u32 = (510 * (c as u32) + (a as u32)) / (2 * (a as u32));
        if v > 255 {
            255
        } else {
            v as u8
        }
    }
}

/// Convert a pre-multiplied RGBA byte buffer to straight alpha.
pub fn demultiply(data: &Vec<u8>) -> (r: Vec<u8>)
    requires
        data@.len() % 4 == 0,
    ensures
        r@ == demultiplied(data@),
        r@.len() == data@.len(),
{
    let mut out: Vec<u8> = Vec::new();
    let n = data.len();
    let pixels = n / 4;
    let mut p: usize = 0;
    proof {
        assert(data@.skip(0) =~= data@);
    }
    while p < pixels
        invariant
            n == data@.len(),
            n % 4 == 0,
            pixels == n / 4,
            p <= pixels,
            out@.len() == 4 * p,
            out@ + demultiplied(data@.skip(4 * p)) == demultiplied(data@),
        decreases pixels - p,
    {
        let a = data[4 * p + 3];
        let r = demul_channel_exec(data[4 * p], a);
        let g = demul_channel_exec(data[4 * p + 1], a);
        let b = demul_channel_exec(data[4 * p + 2], a);
        let ghost before = out@;
        out.push(r);
        out.push(g);
        out.push(b);
        out.push(a);
        proof {
            let rest = data@.skip(4 * p as int);
            assert(rest.len() >= 4);
            assert(rest[0] == data@[4 * p as int]);
            assert(rest[1] == data@[4 * p + 1]);
            assert(rest[2] == data@[4 * p + 2]);
            assert(rest[3] == data@[4 * p + 3]);
            assert(rest.skip(4) =~= data@.skip(4 * (p + 1)));
            assert(out@ =~= before + seq![r, g, b, a]);
            assert(before + demultiplied(rest) =~= out@ + demultiplied(
                data@.skip(4 * (p + 1)),
            ));
        }
        p = p + 1;
    }
    proof {
        assert(data@.skip(4 * pixels as int) =~= Seq::<u8>::empty());
        lemma_demultiplied_len(data@);
    }
    out
}

/// The optimizer's output for a straight-alpha RGBA image: whether encoding
/// succeeds, and the encoded byte stream. A pure function of the dimensions
/// and the pixel bytes.
pub uninterp spec fn png_of(width: int, height: int, data: Seq<u8>) -> (bool, Seq<u8>);

/// Relies on `oxipng::RawImage::new` (RGBA, eight bits per channel; it accepts
/// exactly the buffers whose length is width x height x 4) and
/// `RawImage::create_optimized_png` at the fastest optimization preset, which
/// deterministically encodes and losslessly compresses the image.
#[verifier::external_body]
fn optimize_png(width: u32, height: u32, data: Vec<u8>) -> (r: Result<Vec<u8>, OgError>)
    requires
        data@.len() == 4 * (width as int) * (height as int),
        width >= 1,
        height >= 1,
    ensures
        (r is Ok) == png_of(width as int, height as int, data@).0,
        r matches Ok(b) ==> b@ == png_of(width as int, height as int, data@).1,
        r matches Err(e) ==> e == OgError::Encode,
{
    let raw = oxipng::RawImage::new(
        width,
        height,
        oxipng::ColorType::RGBA,
        oxipng::BitDepth::Eight,
        data,
    ).map_err(|_| OgError::Encode)?;
    raw.create_optimized_png(&oxipng::Options::from_preset(0)).map_err(|_| OgError::Encode)
}

/// The encoded image for a pre-multiplied pixel buffer: whether encoding
/// succeeds, and the byte stream produced from the demultiplied pixels.
pub open spec fn spec_encode(width: int, height: int, data: Seq<u8>) -> (bool, Seq<u8>) {
    png_of(width, height, demultiplied(data))
}

/// Encode a pre-multiplied pixel buffer as an optimized lossless bitmap:
/// demultiply every pixel to straight alpha, then encode and compress.
pub fn pixmap_to_optimized_png(pixmap: PixelBuffer) -> (r: Result<Vec<u8>, OgError>)
    requires
        pixmap.wf(),
    ensures
        (r is Ok) == spec_encode(pixmap.width as int, pixmap.height as int, pixmap.data@).0,
        r matches Ok(b) ==> b@ == spec_encode(
            pixmap.width as int,
            pixmap.height as int,
            pixmap.data@,
        ).1,
        r matches Err(e) ==> e == OgError::Encode,
{
    proof {
        assert(pixmap.data@.len() % 4 == 0) by {
            assert(pixmap.data@.len() == 4 * ((pixmap.width as int) * (pixmap.height as int)))
                by (nonlinear_arith)
                requires
                    pixmap.data@.len() == 4 * (pixmap.width as int) * (pixmap.height as int),
            ;
        };
    }
    let straight = demultiply(&pixmap.data);
    optimize_png(pixmap.width, pixmap.height, straight)
}

} // verus!
