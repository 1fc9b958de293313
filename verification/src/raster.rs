//! The image of one frame: RGBA, one byte per channel, row-major.

use vstd::prelude::*;
use crate::grid::{cell_offset, lemma_offset_in_grid, offset_of};

verus! {

/// Bytes of one pixel.
pub const CHANNELS: usize = 4;

/// One pixel.
#[derive(Clone, Copy, Debug, PartialEq, Eq, Structural)]
pub struct Rgba {
    pub r: u8,
    pub g: u8,
    pub b: u8,
    pub a: u8,
}

/// What a frame's target holds before the kernel writes it: opaque black.
pub open spec fn blank_pixel() -> Rgba {
    Rgba { r: 0, g: 0, b: 0, a: 255 }
}

/// The channel of `pixel` that sits `k` bytes into it.
pub open spec fn channel(pixel: Rgba, k: int) -> u8 {
    if k == 0 {
        pixel.r
    } else if k == 1 {
        pixel.g
    } else if k == 2 {
        pixel.b
    } else {
        pixel.a
    }
}

/// The bytes of an image of `width` by `height` pixels that all equal `pixel`.
pub open spec fn filled(width: u32, height: u32, pixel: Rgba) -> Seq<u8> {
    Seq::new((width * height * 4) as nat, |k: int| channel(pixel, k % 4))
}

/// A frame's pixels.
#[derive(Debug)]
pub struct RenderedImage {
    pub width: u32,
    pub height: u32,
    pub data: Vec<u8>,
}

/// Calls `image::ImageBuffer::from_pixel` for an RGBA image with one byte
/// per channel and takes the buffer out of the result with `into_raw`. The
/// contract claims that the buffer holds four bytes for each of the
/// `width * height` pixels and that each pixel's bytes are `r`, `g`, `b`,
/// `a` in this order. The outside function multiplies 4 by the width and
/// then by the height, and panics when either product does not fit in
/// `usize`; the precondition leaves both cases out.
#[verifier::external_body]
fn image_from_pixel(width: u32, height: u32, pixel: Rgba) -> (out: Vec<u8>)
    requires
        4 * width <= usize::MAX,
        4 * width * height <= usize::MAX,
    ensures
        out@ == filled(width, height, pixel),
{
    let color = image::Rgba([pixel.r, pixel.g, pixel.b, pixel.a]);
    image::ImageBuffer::from_pixel(width, height, color).into_raw()
}

/// The number of bytes of an image, `width * height * 4`; `None` exactly
/// when that is more than `usize` holds.
pub fn byte_count(width: u32, height: u32) -> (out: Option<usize>)
    ensures
        width * height * 4 <= usize::MAX ==> out == Some((width * height * 4) as usize),
        width * height * 4 > usize::MAX ==> out.is_none(),
{
    assert(width * height <= 0xFFFF_FFFE_0000_0001) by (nonlinear_arith)
        requires
            width <= 0xFFFF_FFFF,
            height <= 0xFFFF_FFFF,
    ;
    let cells: u64 = (width as u64) * (height as u64);
    if cells > (usize::MAX / CHANNELS) as u64 {
        None
    } else {
        Some((cells as usize) * CHANNELS)
    }
}

impl RenderedImage {
    /// The buffer holds four bytes for each pixel.
    pub open spec fn wf(self) -> bool {
        self.data@.len() == self.width * self.height * 4
    }

    /// The pixel in column `x`, row `y`.
    pub open spec fn pixel_at(self, x: int, y: int) -> Rgba {
        let at = 4 * offset_of(x, y, self.width as int);
        Rgba {
            r: self.data@[at],
            g: self.data@[at + 1],
            b: self.data@[at + 2],
            a: self.data@[at + 3],
        }
    }

    /// A frame's target before the kernel writes it: every pixel opaque
    /// black. `None` exactly when the bytes are more than `usize` holds.
    pub fn blank(width: u32, height: u32) -> (out: Option<RenderedImage>)
        ensures
            out.is_some() <==> width * height * 4 <= usize::MAX,
            out matches Some(image) ==> image.wf() && image.width == width && image.height
                == height && image.data@ == filled(width, height, blank_pixel()),
    {
        match byte_count(width, height) {
            None => None,
            Some(bytes) => {
                let data = if bytes == 0 {
                    let empty: Vec<u8> = Vec::new();
                    assert(empty@ =~= filled(width, height, blank_pixel()));
                    empty
                } else {
                    assert(4 * width <= 4 * width * height && 4 * width * height == width
                        * height * 4) by (nonlinear_arith)
                        requires
                            width * height * 4 > 0,
                            0 <= width,
                            0 <= height,
                    ;
                    image_from_pixel(width, height, Rgba { r: 0, g: 0, b: 0, a: 255 })
                };
                Some(RenderedImage { width, height, data })
            },
        }
    }

    /// Takes the bytes that the kernel wrote as the image of a frame.
    /// `None` exactly when they are not four for each pixel.
    pub fn from_raw(width: u32, height: u32, data: Vec<u8>) -> (out: Option<RenderedImage>)
        ensures
            out.is_some() <==> data@.len() == width * height * 4,
            out matches Some(image) ==> image.wf() && image.width == width && image.height
                == height && image.data@ == data@,
    {
        assert(data@.len() == data.len());
        match byte_count(width, height) {
            Some(n) => {
                if n == data.len() {
                    Some(RenderedImage { width, height, data })
                } else {
                    None
                }
            },
            None => None,
        }
    }

    /// Reads the pixel in column `x`, row `y`.
    pub fn pixel(&self, x: u32, y: u32) -> (out: Rgba)
        requires
            self.wf(),
            x < self.width,
            y < self.height,
        ensures
            out == self.pixel_at(x as int, y as int),
    {
        assert(self.data@.len() == self.data.len());
        assert(self.width * self.height <= usize::MAX);
        let at: usize = cell_offset(x, y, self.width, self.height) * CHANNELS;
        Rgba { r: self.data[at], g: self.data[at + 1], b: self.data[at + 2], a: self.data[at + 3] }
    }
}

/// Every pixel of a blank image is opaque black.
pub proof fn lemma_blank_pixels(image: RenderedImage, x: int, y: int)
    requires
        image.data@ == filled(image.width, image.height, blank_pixel()),
        0 <= x < image.width,
        0 <= y < image.height,
    ensures
        image.pixel_at(x, y) == blank_pixel(),
{
    lemma_offset_in_grid(x, y, image.width as int, image.height as int);
}

} // verus!
