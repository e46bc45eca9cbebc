//! The pixel model: colors, the image as a mathematical object and the buffer that
//! holds one.

use vstd::prelude::*;
use crate::error::ConverterError;

verus! {

/// One pixel: red, green, blue and alpha, eight bits each.
#[derive(Clone, Copy, Debug, PartialEq, Eq, Structural)]
pub struct Color {
    pub r: u8,
    pub g: u8,
    pub b: u8,
    pub a: u8,
}

impl Color {
    /// The opaque color with the given channels.
    pub open spec fn rgb(r: u8, g: u8, b: u8) -> Color {
        Color { r, g, b, a: 255 }
    }

    /// The all-zero color, which stands for "no key color".
    pub open spec fn none() -> Color {
        Color { r: 0, g: 0, b: 0, a: 0 }
    }

    /// Equality of the three color channels; alpha is ignored.
    pub open spec fn same_rgb(self, other: Color) -> bool {
        self.r == other.r && self.g == other.g && self.b == other.b
    }

    /// A fully transparent pixel.
    pub open spec fn is_transparent(self) -> bool {
        self.a == 0
    }

    pub fn new(r: u8, g: u8, b: u8) -> (c: Color)
        ensures
            c == Color::rgb(r, g, b),
    {
        Color { r, g, b, a: 255 }
    }

    pub fn new_rgba(r: u8, g: u8, b: u8, a: u8) -> (c: Color)
        ensures
            c == (Color { r, g, b, a }),
    {
        Color { r, g, b, a }
    }
}

impl Default for Color {
    fn default() -> (c: Color)
        ensures
            c == Color::none(),
    {
        Color { r: 0, g: 0, b: 0, a: 0 }
    }
}

/// The pixel that a byte sequence holds at position `i`, four bytes per pixel.
pub open spec fn color_at(bytes: Seq<u8>, i: int) -> Color {
    Color { r: bytes[4 * i], g: bytes[4 * i + 1], b: bytes[4 * i + 2], a: bytes[4 * i + 3] }
}

/// The pixels that a byte sequence holds, in order.
pub open spec fn colors_of(bytes: Seq<u8>) -> Seq<Color> {
    Seq::new((bytes.len() / 4) as nat, |i: int| color_at(bytes, i))
}

/// An image as a mathematical object: its pixels in row-major order.
pub struct Image {
    pub width: nat,
    pub height: nat,
    pub pixels: Seq<Color>,
}

impl Image {
    /// There is exactly one pixel for each grid position.
    pub open spec fn wf(self) -> bool {
        self.pixels.len() == self.width * self.height
    }

    /// The pixel in column `x` of row `y`.
    pub open spec fn at(self, x: int, y: int) -> Color {
        self.pixels[y * self.width + x]
    }

    /// Row `y`, left to right.
    pub open spec fn row(self, y: int) -> Seq<Color> {
        self.pixels.subrange(y * self.width, y * self.width + self.width)
    }
}

/// A position inside a `width` by `height` grid has a row-major index below `width * height`.
pub proof fn lemma_grid_index(x: int, y: int, width: int, height: int)
    requires
        0 <= x < width,
        0 <= y < height,
    ensures
        0 <= y * width + x < width * height,
        y * width + width <= width * height,
        0 <= y * width,
{
    assert(y * width + width == (y + 1) * width) by (nonlinear_arith);
    assert((y + 1) * width <= height * width) by (nonlinear_arith)
        requires
            y + 1 <= height,
            0 <= width,
    ;
    assert(height * width == width * height) by (nonlinear_arith);
    assert(0 <= y * width) by (nonlinear_arith)
        requires
            0 <= y,
            0 <= width,
    ;
}

/// RGBA pixel data with its dimensions. A well-formed buffer holds exactly four bytes
/// for each of its `width * height` pixels, row by row; `new` makes no other.
pub struct PixelBuffer {
    pub(crate) pixels: Vec<u8>,
    pub(crate) width: usize,
    pub(crate) height: usize,
}

impl View for PixelBuffer {
    type V = Image;

    open(crate) spec fn view(&self) -> Image {
        Image {
            width: self.width as nat,
            height: self.height as nat,
            pixels: colors_of(self.pixels@),
        }
    }
}

impl PixelBuffer {
    /// The raw bytes, four per pixel.
    pub open(crate) spec fn bytes(&self) -> Seq<u8> {
        self.pixels@
    }

    /// The buffer holds exactly four bytes for each pixel of the grid.
    pub open(crate) spec fn wf(&self) -> bool {
        &&& self.pixels@.len() == 4 * (self.width * self.height)
        &&& self.pixels@.len() <= usize::MAX
    }

    /// What the invariant means for the view: the grid is complete and fits the machine.
    pub proof fn lemma_view_wf(&self)
        requires
            self.wf(),
        ensures
            self@.wf(),
            self@.pixels == colors_of(self.bytes()),
            self.bytes().len() == 4 * (self@.width * self@.height),
            self@.width * self@.height <= usize::MAX,
            self@.width <= usize::MAX,
            self@.height <= usize::MAX,
    {
    }

    /// Takes ownership of `pixels` as an image of `width` by `height` pixels.
    /// The buffer is accepted exactly when it holds four bytes per pixel.
    pub fn new(width: usize, height: usize, pixels: Vec<u8>) -> (made: Result<
        PixelBuffer,
        ConverterError,
    >)
        ensures
            made is Ok <==> pixels@.len() == 4 * (width * height),
            made matches Ok(buffer) ==> {
                &&& buffer.wf()
                &&& buffer.bytes() == pixels@
                &&& buffer@.width == width
                &&& buffer@.height == height
            },
            made matches Err(e) ==> e == ConverterError::InvalidImageSize,
    {
        let len: usize = pixels.len();
        let area: usize = match width.checked_mul(height) {
            Some(area) => area,
            None => {
                return Err(ConverterError::InvalidImageSize);
            },
        };
        let expected: usize = match area.checked_mul(4) {
            Some(expected) => expected,
            None => {
                return Err(ConverterError::InvalidImageSize);
            },
        };
        if len != expected {
            return Err(ConverterError::InvalidImageSize);
        }
        Ok(PixelBuffer { pixels, width, height })
    }

    pub fn width(&self) -> (w: usize)
        ensures
            w == self@.width,
    {
        self.width
    }

    pub fn height(&self) -> (h: usize)
        ensures
            h == self@.height,
    {
        self.height
    }

    /// The number of pixels.
    pub fn pixel_count(&self) -> (n: usize)
        requires
            self.wf(),
        ensures
            n == self@.width * self@.height,
            n == self@.pixels.len(),
    {
        self.pixels.len() / 4
    }

    /// The raw bytes, four per pixel, row by row.
    pub fn as_bytes(&self) -> (bytes: &Vec<u8>)
        ensures
            bytes@ == self.bytes(),
    {
        &self.pixels
    }

    /// The pixel with row-major index `index`.
    pub fn get_pixel_at(&self, index: usize) -> (c: Color)
        requires
            self.wf(),
            index < self@.pixels.len(),
        ensures
            c == self@.pixels[index as int],
    {
        assert(self@.pixels.len() == self.pixels@.len() / 4);
        let base: usize = index * 4;
        Color {
            r: self.pixels[base],
            g: self.pixels[base + 1],
            b: self.pixels[base + 2],
            a: self.pixels[base + 3],
        }
    }

    /// The pixel in column `x` of row `y`.
    pub fn get_pixel(&self, x: usize, y: usize) -> (c: Color)
        requires
            self.wf(),
            x < self@.width,
            y < self@.height,
        ensures
            c == self@.at(x as int, y as int),
    {
        proof {
            lemma_grid_index(x as int, y as int, self.width as int, self.height as int);
        }
        self.get_pixel_at(y * self.width + x)
    }

    /// Overwrites the pixel with row-major index `index`.
    pub fn set_pixel_at(&mut self, index: usize, color: Color)
        requires
            old(self).wf(),
            index < old(self)@.pixels.len(),
        ensures
            final(self).wf(),
            final(self)@.width == old(self)@.width,
            final(self)@.height == old(self)@.height,
            final(self)@.pixels == old(self)@.pixels.update(index as int, color),
    {
        assert(self@.pixels.len() == self.pixels@.len() / 4);
        let base: usize = index * 4;
        self.pixels.set(base, color.r);
        self.pixels.set(base + 1, color.g);
        self.pixels.set(base + 2, color.b);
        self.pixels.set(base + 3, color.a);
        assert(self@.pixels =~= old(self)@.pixels.update(index as int, color));
    }

    /// Overwrites the pixel in column `x` of row `y`.
    pub fn set_pixel(&mut self, x: usize, y: usize, color: Color)
        requires
            old(self).wf(),
            x < old(self)@.width,
            y < old(self)@.height,
        ensures
            final(self).wf(),
            final(self)@.width == old(self)@.width,
            final(self)@.height == old(self)@.height,
            final(self)@.pixels == old(self)@.pixels.update(y * old(self)@.width + x, color),
    {
        proof {
            lemma_grid_index(x as int, y as int, self.width as int, self.height as int);
        }
        let index: usize = y * self.width + x;
        self.set_pixel_at(index, color);
    }
}

} // verus!
