//! The pixel grid: a `Pixel` value type and a rectangular `Image` buffer.

use vstd::prelude::*;

verus! {

/// One pixel: three 8-bit color channels, red, green and blue.
#[derive(Clone, Copy, PartialEq, Eq, Structural, Debug)]
pub struct Pixel {
    pub r: u8,
    pub g: u8,
    pub b: u8,
}

impl Default for Pixel {
    /// The default pixel is black: every channel zero.
    fn default() -> (p: Pixel)
        ensures
            p == (Pixel { r: 0, g: 0, b: 0 }),
    {
        Pixel { r: 0, g: 0, b: 0 }
    }
}

/// A rectangular grid of pixels with explicit dimensions, stored row by row.
pub struct Image {
    pub pixels: Vec<Vec<Pixel>>,
    pub width: usize,
    pub height: usize,
}

impl Image {
    /// The grid is rectangular: exactly `height` rows, each of exactly
    /// `width` pixels. Constructors establish this and nothing breaks it.
    pub open spec fn wf(self) -> bool {
        &&& self.pixels@.len() == self.height
        &&& forall|i: int|
            0 <= i < self.height ==> (#[trigger] self.pixels@[i])@.len() == self.width
    }

    /// The pixel in row `i`, column `j`.
    pub open spec fn pixel(self, i: int, j: int) -> Pixel {
        self.pixels@[i]@[j]
    }

    /// Builds a `width` by `height` image in which every pixel is the
    /// default (black) pixel.
    pub fn new(width: usize, height: usize) -> (img: Image)
        ensures
            img.wf(),
            img.width == width,
            img.height == height,
            forall|i: int, j: int|
                0 <= i < height && 0 <= j < width ==> img.pixel(i, j) == (Pixel {
                    r: 0,
                    g: 0,
                    b: 0,
                }),
    {
        let mut pixels: Vec<Vec<Pixel>> = Vec::new();
        let mut i: usize = 0;
        while i < height
            invariant
                i <= height,
                pixels@.len() == i,
                forall|a: int| 0 <= a < i ==> (#[trigger] pixels@[a])@.len() == width,
                forall|a: int, b: int|
                    0 <= a < i && 0 <= b < width ==> pixels@[a]@[b] == (Pixel {
                        r: 0,
                        g: 0,
                        b: 0,
                    }),
            decreases height - i,
        {
            let mut row: Vec<Pixel> = Vec::new();
            let mut j: usize = 0;
            while j < width
                invariant
                    j <= width,
                    row@.len() == j,
                    forall|b: int| 0 <= b < j ==> row@[b] == (Pixel { r: 0, g: 0, b: 0 }),
                decreases width - j,
            {
                row.push(Pixel::default());
                j += 1;
            }
            pixels.push(row);
            i += 1;
        }
        Image { pixels, width, height }
    }

    /// Builds a `width` by `height` image by invoking `pix_init(row, col)`
    /// once per cell, rows top to bottom and cells left to right within a
    /// row; cell `(i, j)` holds a value `pix_init` may return for `(i, j)`.
    pub fn new_assign<F: Fn(usize, usize) -> Pixel>(
        width: usize,
        height: usize,
        pix_init: F,
    ) -> (img: Image)
        requires
            forall|i: usize, j: usize|
                i < height && j < width ==> #[trigger] pix_init.requires((i, j)),
        ensures
            img.wf(),
            img.width == width,
            img.height == height,
            forall|i: int, j: int|
                0 <= i < height && 0 <= j < width ==> pix_init.ensures(
                    (i as usize, j as usize),
                    #[trigger] img.pixel(i, j),
                ),
    {
        let mut pixels: Vec<Vec<Pixel>> = Vec::new();
        let mut i: usize = 0;
        while i < height
            invariant
                i <= height,
                pixels@.len() == i,
                forall|a: usize, b: usize|
                    a < height && b < width ==> #[trigger] pix_init.requires((a, b)),
                forall|a: int| 0 <= a < i ==> (#[trigger] pixels@[a])@.len() == width,
                forall|a: int, b: int|
                    0 <= a < i && 0 <= b < width ==> pix_init.ensures(
                        (a as usize, b as usize),
                        #[trigger] pixels@[a]@[b],
                    ),
            decreases height - i,
        {
            let mut row: Vec<Pixel> = Vec::new();
            let mut j: usize = 0;
            while j < width
                invariant
                    i < height,
                    j <= width,
                    row@.len() == j,
                    forall|a: usize, b: usize|
                        a < height && b < width ==> #[trigger] pix_init.requires((a, b)),
                    forall|b: int|
                        0 <= b < j ==> pix_init.ensures(
                            (i, b as usize),
                            #[trigger] row@[b],
                        ),
                decreases width - j,
            {
                row.push(pix_init(i, j));
                j += 1;
            }
            pixels.push(row);
            i += 1;
        }
        Image { pixels, width, height }
    }
}

} // verus!
