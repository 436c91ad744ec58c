//! The coordinate model: points in a centered, y-up logical space,
//! Euclidean distance between them, and the viewport that maps a logical
//! point onto a clamped, y-down pixel coordinate.
//!
//! Coordinates are fixed-point: `FP_SCALE` subunits per logical unit.

use vstd::prelude::*;
use crate::fixed::{FP_SCALE, FP_HALF, sq, is_floor_sqrt, floor_sqrt, round_units};
use crate::fixed::{lemma_floor_sqrt_exists, lemma_floor_sqrt_unique};
use crate::fixed::round_units_i64;

verus! {

/// Largest coordinate magnitude (in subunits) the distance and translation
/// routines accept; keeps every intermediate square inside 64 bits.
pub const MAX_COORD: i64 = 1_000_000_000;

/// Upper bound on any distance between two in-range points (in subunits).
pub const MAX_DISTANCE: i64 = 2_900_000_000;

/// A position in the centered logical coordinate system, y increasing
/// upward, in fixed-point subunits.
#[derive(Debug, Clone, Copy, PartialEq, Eq, Structural)]
pub struct Point {
    pub x: i64,
    pub y: i64,
}

/// Both coordinates of `p` are at most `MAX_COORD` in magnitude.
pub open spec fn in_coord_range(p: Point) -> bool {
    &&& -MAX_COORD <= p.x <= MAX_COORD
    &&& -MAX_COORD <= p.y <= MAX_COORD
}

/// The point standing for the pixel at column `x`, row `y`: each index
/// widened to a whole logical unit.
pub open spec fn point_at_pixel(x: int, y: int) -> Point {
    Point {
        x: (x * (FP_SCALE as int)) as i64,
        y: (y * (FP_SCALE as int)) as i64,
    }
}

impl Point {
    /// A point from fixed-point coordinates.
    pub fn new(x: i64, y: i64) -> (p: Point)
        ensures
            p == (Point { x, y }),
    {
        Point { x, y }
    }

    /// A point from unsigned pixel indices, widened to whole units.
    pub fn new_u32(x: u32, y: u32) -> (p: Point)
        ensures
            p == point_at_pixel(x as int, y as int),
    {
        Point { x: (x as i64) * FP_SCALE, y: (y as i64) * FP_SCALE }
    }

    /// Whether both coordinates are small enough for the distance and
    /// translation routines.
    pub fn in_range(&self) -> (b: bool)
        ensures
            b == in_coord_range(*self),
    {
        -MAX_COORD <= self.x && self.x <= MAX_COORD
            && -MAX_COORD <= self.y && self.y <= MAX_COORD
    }
}

impl From<(i64, i64)> for Point {
    fn from(value: (i64, i64)) -> (p: Point) {
        Point { x: value.0, y: value.1 }
    }
}

impl vstd::std_specs::convert::FromSpecImpl<(i64, i64)> for Point {
    open spec fn obeys_from_spec() -> bool {
        true
    }

    open spec fn from_spec(v: (i64, i64)) -> Point {
        Point { x: v.0, y: v.1 }
    }
}

/// The squared Euclidean distance between two points.
pub open spec fn spec_dist2(p1: Point, p2: Point) -> int {
    sq(p1.x - p2.x) + sq(p1.y - p2.y)
}

/// The Euclidean distance between two points, in subunits, rounded down.
pub open spec fn spec_distance(p1: Point, p2: Point) -> int {
    floor_sqrt(spec_dist2(p1, p2))
}

/// Distance does not depend on the order of its arguments.
pub proof fn lemma_distance_symmetric(p1: Point, p2: Point)
    ensures
        spec_distance(p1, p2) == spec_distance(p2, p1),
{
    assert((p1.x - p2.x) * (p1.x - p2.x) == (p2.x - p1.x) * (p2.x - p1.x))
        by (nonlinear_arith);
    assert((p1.y - p2.y) * (p1.y - p2.y) == (p2.y - p1.y) * (p2.y - p1.y))
        by (nonlinear_arith);
    assert(spec_dist2(p1, p2) == spec_dist2(p2, p1));
}

/// Distance is never negative.
pub proof fn lemma_distance_nonneg(p1: Point, p2: Point)
    ensures
        spec_distance(p1, p2) >= 0,
{
    assert((p1.x - p2.x) * (p1.x - p2.x) >= 0) by (nonlinear_arith);
    assert((p1.y - p2.y) * (p1.y - p2.y) >= 0) by (nonlinear_arith);
    lemma_floor_sqrt_exists(spec_dist2(p1, p2));
}

/// Distance is zero exactly when the two points coincide.
pub proof fn lemma_distance_zero_iff(p1: Point, p2: Point)
    ensures
        spec_distance(p1, p2) == 0 <==> p1 == p2,
{
    let d2 = spec_dist2(p1, p2);
    assert((p1.x - p2.x) * (p1.x - p2.x) >= 0) by (nonlinear_arith);
    assert((p1.y - p2.y) * (p1.y - p2.y) >= 0) by (nonlinear_arith);
    assert(0 * 0 == 0 && 1 * 1 == 1) by (nonlinear_arith);
    lemma_floor_sqrt_exists(d2);
    let r = floor_sqrt(d2);
    if p1 == p2 {
        assert((p1.x - p2.x) * (p1.x - p2.x) == 0) by (nonlinear_arith)
            requires p1.x == p2.x;
        assert((p1.y - p2.y) * (p1.y - p2.y) == 0) by (nonlinear_arith)
            requires p1.y == p2.y;
        assert(d2 == 0);
        assert(is_floor_sqrt(0, 0));
        lemma_floor_sqrt_unique(0, 0);
    } else {
        if p1.x != p2.x {
            assert((p1.x - p2.x) * (p1.x - p2.x) >= 1) by (nonlinear_arith)
                requires p1.x != p2.x;
        } else {
            assert((p1.y - p2.y) * (p1.y - p2.y) >= 1) by (nonlinear_arith)
                requires p1.y != p2.y;
        }
        assert(d2 >= 1);
        if r == 0 {
            assert(false);
        }
    }
}

/// Distance from a point to itself is zero.
pub proof fn lemma_distance_self(p: Point)
    ensures
        spec_distance(p, p) == 0,
{
    lemma_distance_zero_iff(p, p);
}

/// The Euclidean distance between two points, in subunits, rounded down
/// to the nearest subunit (so exact to 1e-4 of a logical unit).
pub fn calc_eucledian_distance(p1: &Point, p2: &Point) -> (d: i64)
    requires
        in_coord_range(*p1),
        in_coord_range(*p2),
    ensures
        d == spec_distance(*p1, *p2),
        is_floor_sqrt(spec_dist2(*p1, *p2), d as int),
        0 <= d <= MAX_DISTANCE,
{
    let dx: i64 = p1.x - p2.x;
    let dy: i64 = p1.y - p2.y;
    let adx: u64 = if dx >= 0 { dx as u64 } else { (-dx) as u64 };
    let ady: u64 = if dy >= 0 { dy as u64 } else { (-dy) as u64 };
    proof {
        assert((adx as int) * (adx as int) == sq(dx as int)
            && (adx as int) * (adx as int) <= 4_000_000_000_000_000_000) by (nonlinear_arith)
            requires
                adx as int == dx as int || adx as int == -(dx as int),
                -2_000_000_000 <= dx as int <= 2_000_000_000;
        assert((ady as int) * (ady as int) == sq(dy as int)
            && (ady as int) * (ady as int) <= 4_000_000_000_000_000_000) by (nonlinear_arith)
            requires
                ady as int == dy as int || ady as int == -(dy as int),
                -2_000_000_000 <= dy as int <= 2_000_000_000;
    }
    let d2: u64 = adx * adx + ady * ady;
    let r: u64 = crate::fixed::floor_sqrt_u64(d2);
    proof {
        assert(d2 as int == spec_dist2(*p1, *p2));
        if r as int > MAX_DISTANCE as int {
            assert(sq(r as int) > 8_000_000_000_000_000_000) by (nonlinear_arith)
                requires r as int > 2_900_000_000;
            assert(false);
        }
    }
    r as i64
}

/// The pixel-buffer dimensions, in fixed-point subunits, giving the single
/// mapping from logical space onto clamped pixel coordinates.
#[derive(Debug, Clone, Copy, PartialEq, Eq, Structural)]
pub struct Viewport {
    pub width: i64,
    pub height: i64,
}

/// `v` clamped into the inclusive interval `[lo, hi]`.
pub open spec fn clamp(v: int, lo: int, hi: int) -> int {
    if v < lo {
        lo
    } else if v > hi {
        hi
    } else {
        v
    }
}

/// The translated column coordinate: `width/2 + x` rounded to a whole
/// unit, halves away from zero, then clamped inclusively to `[0, width]`.
pub open spec fn spec_translate_x(width: int, x: int) -> int {
    clamp(round_units(width / 2 + x) * (FP_SCALE as int), 0, width)
}

/// The translated row coordinate: the y axis flips (`height/2 - y`), is
/// rounded to a whole unit, then clamped inclusively to `[0, height]`.
pub open spec fn spec_translate_y(height: int, y: int) -> int {
    clamp(round_units(height / 2 - y) * (FP_SCALE as int), 0, height)
}

impl Viewport {
    /// Dimensions are nonnegative, even, and within coordinate range.
    pub open spec fn wf(self) -> bool {
        &&& 0 <= self.width <= MAX_COORD
        &&& 0 <= self.height <= MAX_COORD
        &&& self.width % 2 == 0
        &&& self.height % 2 == 0
    }

    /// Whether this viewport satisfies the well-formedness invariant.
    pub fn is_well_formed(&self) -> (b: bool)
        ensures
            b == self.wf(),
    {
        0 <= self.width && self.width <= MAX_COORD
            && 0 <= self.height && self.height <= MAX_COORD
            && (self.width as u64) % 2 == 0
            && (self.height as u64) % 2 == 0
    }

    /// Maps a logical point to the pixel coordinate of the buffer: centers
    /// the origin, flips the y axis, rounds to whole units, and clamps
    /// inclusively into `[0, width]` x `[0, height]`.
    ///
    /// The clamp is inclusive on both ends, so a translated coordinate can
    /// equal `width` or `height`, one past the last valid pixel index;
    /// callers that index a buffer must guard that edge.
    pub fn translate(&self, p: Point) -> (q: Point)
        requires
            self.wf(),
            in_coord_range(p),
        ensures
            q.x == spec_translate_x(self.width as int, p.x as int),
            q.y == spec_translate_y(self.height as int, p.y as int),
            0 <= q.x <= self.width,
            0 <= q.y <= self.height,
            in_coord_range(q),
    {
        let half_w: i64 = ((self.width as u64) / 2) as i64;
        let half_h: i64 = ((self.height as u64) / 2) as i64;
        let rx: i64 = round_units_i64(half_w + p.x);
        let ry: i64 = round_units_i64(half_h - p.y);
        let sx: i64 = rx * FP_SCALE;
        let sy: i64 = ry * FP_SCALE;
        let cx: i64 = if sx < 0 { 0 } else if sx > self.width { self.width } else { sx };
        let cy: i64 = if sy < 0 { 0 } else if sy > self.height { self.height } else { sy };
        Point { x: cx, y: cy }
    }
}

/// A target raster's dimensions in pixels: width, then height.
#[derive(Debug, Clone, Copy, PartialEq, Eq, Structural)]
pub struct ImgSize(pub u32, pub u32);

impl From<&ImgSize> for Viewport {
    fn from(value: &ImgSize) -> (v: Viewport) {
        Viewport {
            width: (value.0 as i64) * FP_SCALE,
            height: (value.1 as i64) * FP_SCALE,
        }
    }
}

impl vstd::std_specs::convert::FromSpecImpl<&ImgSize> for Viewport {
    open spec fn obeys_from_spec() -> bool {
        true
    }

    open spec fn from_spec(v: &ImgSize) -> Viewport {
        Viewport {
            width: ((v.0 as int) * (FP_SCALE as int)) as i64,
            height: ((v.1 as int) * (FP_SCALE as int)) as i64,
        }
    }
}

} // verus!
