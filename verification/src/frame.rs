//! The pixel grid and its colour type.
//!
//! A `Frame` owns a width, a height, and a flat row-major sequence of
//! `Colour` values of length width * height (index = y * width + x).  It is
//! created all black and mutated only through the per-pixel write operation.

use vstd::prelude::*;

verus! {

/// One 24-bit colour: three independent 8-bit channels.
#[derive(Clone, Copy, PartialEq, Eq, Structural, Debug)]
pub struct Colour {
    pub red: u8,
    pub green: u8,
    pub blue: u8,
}

impl Colour {
    /// The colour every frame starts out filled with.
    pub open spec fn black() -> Colour {
        Colour { red: 0, green: 0, blue: 0 }
    }

    pub fn new(red: u8, green: u8, blue: u8) -> (c: Colour)
        ensures
            c == (Colour { red, green, blue }),
    {
        Colour { red, green, blue }
    }
}

/// A row-major pixel grid of fixed dimensions.
pub struct Frame {
    pub width: usize,
    pub height: usize,
    pub pixel_arr: Vec<Colour>,
}

/// A row-major index stays strictly below width * height, so every in-bounds
/// coordinate addresses a pixel of a well-formed frame.
pub proof fn lemma_row_major_index_in_range(w: int, h: int, x: int, y: int)
    by (nonlinear_arith)
    requires
        0 <= x < w,
        0 <= y < h,
    ensures
        0 <= y * w + x < w * h,
{
}

/// Distinct in-bounds coordinates have distinct row-major indices: a pixel
/// write touches exactly one coordinate.
pub proof fn lemma_row_major_index_injective(w: int, x1: int, y1: int, x2: int, y2: int)
    by (nonlinear_arith)
    requires
        0 <= x1 < w,
        0 <= x2 < w,
        0 <= y1,
        0 <= y2,
        y1 * w + x1 == y2 * w + x2,
    ensures
        x1 == x2 && y1 == y2,
{
}

impl Frame {
    /// Well-formedness: the flat pixel sequence holds exactly one colour per
    /// coordinate of the width * height grid.
    pub open spec fn wf(self) -> bool {
        self.pixel_arr@.len() == self.width * self.height
    }

    /// The colour of the pixel at (x, y), addressed row-major.
    pub open spec fn pixel(self, x: int, y: int) -> Colour {
        self.pixel_arr@[y * self.width + x]
    }

    /// Builds an all-black frame of the given dimensions.
    pub fn new(width: usize, height: usize) -> (f: Frame)
        requires
            width * height <= usize::MAX,
        ensures
            f.wf(),
            f.width == width,
            f.height == height,
            forall|i: int| 0 <= i < f.pixel_arr@.len() ==> f.pixel_arr@[i] == Colour::black(),
    {
        let n: usize = width * height;
        let mut pixels: Vec<Colour> = Vec::new();
        let mut i: usize = 0;
        while i < n
            invariant
                i <= n,
                pixels@.len() == i,
                forall|j: int| 0 <= j < i ==> pixels@[j] == Colour::black(),
            decreases n - i,
        {
            pixels.push(Colour::new(0, 0, 0));
            i = i + 1;
        }
        Frame { width, height, pixel_arr: pixels }
    }

    /// Overwrites the pixel at (x, y) with `colour`; every other pixel and
    /// the dimensions stay as they were.
    pub fn write_pixel(&mut self, x: usize, y: usize, colour: Colour)
        requires
            old(self).wf(),
            x < old(self).width,
            y < old(self).height,
        ensures
            final(self).wf(),
            final(self).width == old(self).width,
            final(self).height == old(self).height,
            final(self).pixel_arr@ == old(self).pixel_arr@.update(
                y * old(self).width + x,
                colour,
            ),
    {
        proof {
            lemma_row_major_index_in_range(
                self.width as int,
                self.height as int,
                x as int,
                y as int,
            );
            assert(self.pixel_arr.len() == self.pixel_arr@.len());
        }
        let index: usize = y * self.width + x;
        self.pixel_arr[index] = colour;
    }
}

} // verus!
