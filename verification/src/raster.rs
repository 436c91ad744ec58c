//! The raster buffer: a 2D grid of pixel values addressed by integer
//! coordinates, origin top-left, x rightward, y downward, stored
//! row-major with a length invariant.

use vstd::prelude::*;
use crate::color::{Rgb, Hsl};

verus! {

/// Largest raster dimension, keeping the pixel count within `usize` on
/// every machine.
pub const MAX_DIM: u32 = 30_000;

/// One stored pixel: either an opaque RGB triple or an HSL value still
/// awaiting conversion by the color-space collaborator.
#[derive(Debug, Clone, Copy, PartialEq, Eq, Structural)]
pub enum Pixel {
    Rgb(Rgb),
    Hsl(Hsl),
}

/// Row-major indices of distinct in-row positions are in range of the
/// grid, and bounded.
proof fn lemma_index_in_range(w: int, h: int, x: int, y: int)
    by (nonlinear_arith)
    requires
        0 <= x < w <= 30_000,
        0 <= y < h <= 30_000,
    ensures
        0 <= y * w + x < h * w,
        h * w <= 900_000_000,
{
}

/// Two in-row positions with the same row-major index coincide.
proof fn lemma_index_injective(w: int, x1: int, y1: int, x2: int, y2: int)
    by (nonlinear_arith)
    requires
        0 <= x1 < w,
        0 <= x2 < w,
        y1 * w + x1 == y2 * w + x2,
    ensures
        x1 == x2,
        y1 == y2,
{
}

/// A mutable 2D grid of `Pixel` values.
pub struct Raster {
    width: u32,
    height: u32,
    pixels: Vec<Pixel>,
}

impl Raster {
    /// Number of pixel columns.
    pub closed spec fn spec_width(self) -> int {
        self.width as int
    }

    /// Number of pixel rows.
    pub closed spec fn spec_height(self) -> int {
        self.height as int
    }

    /// The pixel stored at column `x`, row `y`.
    pub closed spec fn pixel_at(self, x: int, y: int) -> Pixel {
        self.pixels[y * (self.width as int) + x]
    }

    /// The backing storage holds exactly one pixel per grid cell and the
    /// dimensions are within `MAX_DIM`.
    pub closed spec fn wf(self) -> bool {
        &&& self.pixels.len() == (self.height as int) * (self.width as int)
        &&& self.width <= MAX_DIM
        &&& self.height <= MAX_DIM
    }

    /// A well-formed raster's dimensions are bounded by `MAX_DIM`.
    pub proof fn lemma_dims_bounded(self)
        requires
            self.wf(),
        ensures
            0 <= self.spec_width() <= MAX_DIM,
            0 <= self.spec_height() <= MAX_DIM,
    {
    }

    /// `(x, y)` addresses a cell of the grid.
    pub open spec fn in_bounds(self, x: int, y: int) -> bool {
        0 <= x < self.spec_width() && 0 <= y < self.spec_height()
    }

    /// A raster of the given dimensions with every pixel set to `fill`.
    pub fn new(width: u32, height: u32, fill: Pixel) -> (r: Raster)
        requires
            width <= MAX_DIM,
            height <= MAX_DIM,
        ensures
            r.wf(),
            r.spec_width() == width,
            r.spec_height() == height,
            forall|x: int, y: int| r.in_bounds(x, y) ==> r.pixel_at(x, y) == fill,
    {
        proof {
            assert(0 <= (height as int) * (width as int) <= 900_000_000) by (nonlinear_arith)
                requires
                    0 <= width as int <= 30_000,
                    0 <= height as int <= 30_000;
        }
        let n: usize = (height as usize) * (width as usize);
        let mut pixels: Vec<Pixel> = Vec::new();
        let mut i: usize = 0;
        while i < n
            invariant
                i <= n,
                pixels.len() == i,
                forall|k: int| 0 <= k < i ==> pixels[k] == fill,
            decreases n - i,
        {
            pixels.push(fill);
            i += 1;
        }
        let r = Raster { width, height, pixels };
        proof {
            assert forall|x: int, y: int| r.in_bounds(x, y) implies r.pixel_at(x, y) == fill by {
                lemma_index_in_range(width as int, height as int, x, y);
            }
        }
        r
    }

    /// Number of pixel columns.
    pub fn width(&self) -> (w: u32)
        ensures
            w == self.spec_width(),
    {
        self.width
    }

    /// Number of pixel rows.
    pub fn height(&self) -> (h: u32)
        ensures
            h == self.spec_height(),
    {
        self.height
    }

    /// Reads the pixel at column `x`, row `y`.
    pub fn get(&self, x: u32, y: u32) -> (p: Pixel)
        requires
            self.wf(),
            self.in_bounds(x as int, y as int),
        ensures
            p == self.pixel_at(x as int, y as int),
    {
        proof {
            lemma_index_in_range(self.width as int, self.height as int, x as int, y as int);
        }
        let idx: usize = (y as usize) * (self.width as usize) + (x as usize);
        self.pixels[idx]
    }

    /// Overwrites the pixel at column `x`, row `y`, leaving every other
    /// pixel and the dimensions unchanged.
    pub fn set(&mut self, x: u32, y: u32, p: Pixel)
        requires
            old(self).wf(),
            old(self).in_bounds(x as int, y as int),
        ensures
            final(self).wf(),
            final(self).spec_width() == old(self).spec_width(),
            final(self).spec_height() == old(self).spec_height(),
            final(self).pixel_at(x as int, y as int) == p,
            forall|xx: int, yy: int|
                old(self).in_bounds(xx, yy) && (xx != x || yy != y)
                    ==> final(self).pixel_at(xx, yy) == old(self).pixel_at(xx, yy),
    {
        proof {
            lemma_index_in_range(self.width as int, self.height as int, x as int, y as int);
        }
        let idx: usize = (y as usize) * (self.width as usize) + (x as usize);
        self.pixels[idx] = p;
        proof {
            assert forall|xx: int, yy: int|
                old(self).in_bounds(xx, yy) && (xx != x || yy != y)
                    implies final(self).pixel_at(xx, yy) == old(self).pixel_at(xx, yy) by {
                lemma_index_in_range(self.width as int, self.height as int, xx, yy);
                if yy * (self.width as int) + xx == idx {
                    lemma_index_injective(self.width as int, xx, yy, x as int, y as int);
                }
            }
        }
    }
}

} // verus!
