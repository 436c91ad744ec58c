//! The compositing routines: flat circle fill, gradient circle fill with
//! hue rotation, and the desaturated gradient variant. Each walks every
//! pixel of the raster and overwrites those whose distance to the circle
//! center is at most the radius; every other pixel keeps its prior value.
//!
//! Each routine's contract gives the exact pixel written at every
//! coordinate, so the layering order (later draws paint over earlier
//! ones) is fully determined.

use vstd::prelude::*;
use crate::geom_helpers::{Point, point_at_pixel, in_coord_range, spec_distance};
use crate::geom_helpers::calc_eucledian_distance;
use crate::color::{Rgb, Hsl, spec_shift_hue, spec_desaturate, shift_hue, desaturate};
use crate::raster::{Pixel, Raster};

verus! {

/// Fraction of the saturation (scaled by `FP_SCALE`) that the muted
/// gradient variant removes: eight tenths.
pub const BW_DESATURATION: i64 = 8_000;

/// Whether the pixel at column `x`, row `y` lies inside the circle:
/// its distance to `center` is at most `radius` (inclusive).
pub open spec fn pixel_in_circle(center: Point, radius: int, x: int, y: int) -> bool {
    spec_distance(center, point_at_pixel(x, y)) <= radius
}

/// The value a flat fill leaves at pixel `(x, y)` whose prior value was
/// `prev`: the fill color inside the circle, `prev` outside.
pub open spec fn spec_flat_pixel(
    center: Point,
    radius: int,
    color: Rgb,
    prev: Pixel,
    x: int,
    y: int,
) -> Pixel {
    if pixel_in_circle(center, radius, x, y) {
        Pixel::Rgb(color)
    } else {
        prev
    }
}

/// The color a gradient fill writes at pixel `(x, y)`: the base color
/// with its hue rotated by a quarter of the pixel's distance (in
/// subunits) to the hue reference point.
pub open spec fn spec_rainbow_color(
    rainbow_center: Point,
    starting_color: Hsl,
    x: int,
    y: int,
) -> Hsl {
    spec_shift_hue(
        starting_color,
        spec_distance(point_at_pixel(x, y), rainbow_center) / 4,
    )
}

/// The value a gradient fill leaves at pixel `(x, y)`.
pub open spec fn spec_rainbow_pixel(
    center: Point,
    radius: int,
    rainbow_center: Point,
    starting_color: Hsl,
    prev: Pixel,
    x: int,
    y: int,
) -> Pixel {
    if pixel_in_circle(center, radius, x, y) {
        Pixel::Hsl(spec_rainbow_color(rainbow_center, starting_color, x, y))
    } else {
        prev
    }
}

/// The color the muted gradient fill writes: the gradient color, then
/// desaturated by `BW_DESATURATION`.
pub open spec fn spec_rainbow_bw_color(
    rainbow_center: Point,
    starting_color: Hsl,
    x: int,
    y: int,
) -> Hsl {
    spec_desaturate(
        spec_rainbow_color(rainbow_center, starting_color, x, y),
        BW_DESATURATION as int,
    )
}

/// The value the muted gradient fill leaves at pixel `(x, y)`.
pub open spec fn spec_rainbow_bw_pixel(
    center: Point,
    radius: int,
    rainbow_center: Point,
    starting_color: Hsl,
    prev: Pixel,
    x: int,
    y: int,
) -> Pixel {
    if pixel_in_circle(center, radius, x, y) {
        Pixel::Hsl(spec_rainbow_bw_color(rainbow_center, starting_color, x, y))
    } else {
        prev
    }
}

/// `a` and `b` are rasters of the same dimensions.
pub open spec fn same_dims(a: Raster, b: Raster) -> bool {
    a.spec_width() == b.spec_width() && a.spec_height() == b.spec_height()
}

/// `post` is `pre` after one flat circle fill: every pixel inside the
/// circle holds the fill color, every other pixel its prior value.
pub open spec fn flat_filled(
    pre: Raster,
    post: Raster,
    center: Point,
    radius: int,
    color: Rgb,
) -> bool {
    &&& same_dims(pre, post)
    &&& forall|x: int, y: int|
        post.in_bounds(x, y)
            ==> post.pixel_at(x, y) == spec_flat_pixel(
                center, radius, color, pre.pixel_at(x, y), x, y,
            )
}

/// `post` is `pre` after one gradient circle fill.
pub open spec fn rainbow_filled(
    pre: Raster,
    post: Raster,
    center: Point,
    radius: int,
    rainbow_center: Point,
    starting_color: Hsl,
) -> bool {
    &&& same_dims(pre, post)
    &&& forall|x: int, y: int|
        post.in_bounds(x, y)
            ==> post.pixel_at(x, y) == spec_rainbow_pixel(
                center, radius, rainbow_center, starting_color, pre.pixel_at(x, y), x, y,
            )
}

/// `post` is `pre` after one muted gradient circle fill.
pub open spec fn rainbow_bw_filled(
    pre: Raster,
    post: Raster,
    center: Point,
    radius: int,
    rainbow_center: Point,
    starting_color: Hsl,
) -> bool {
    &&& same_dims(pre, post)
    &&& forall|x: int, y: int|
        post.in_bounds(x, y)
            ==> post.pixel_at(x, y) == spec_rainbow_bw_pixel(
                center, radius, rainbow_center, starting_color, pre.pixel_at(x, y), x, y,
            )
}

/// Paints every pixel within `circle_radius` (inclusive) of
/// `circle_center` with `pixel_color`, leaving every other pixel as it
/// was.
#[verifier::loop_isolation(false)]
pub fn draw_circle(
    circle_center: &Point,
    circle_radius: i64,
    pixel_color: Rgb,
    imgbuf: &mut Raster,
)
    requires
        old(imgbuf).wf(),
        in_coord_range(*circle_center),
    ensures
        final(imgbuf).wf(),
        flat_filled(
            *old(imgbuf), *final(imgbuf), *circle_center, circle_radius as int, pixel_color,
        ),
{
    let w: u32 = imgbuf.width();
    let h: u32 = imgbuf.height();
    proof {
        imgbuf.lemma_dims_bounded();
    }
    let mut y: u32 = 0;
    while y < h
        invariant
            y <= h,
            imgbuf.wf(),
            imgbuf.spec_width() == w,
            imgbuf.spec_height() == h,
            forall|xx: int, yy: int|
                imgbuf.in_bounds(xx, yy) && yy < y
                    ==> imgbuf.pixel_at(xx, yy) == spec_flat_pixel(
                        *circle_center, circle_radius as int, pixel_color,
                        old(imgbuf).pixel_at(xx, yy), xx, yy,
                    ),
            forall|xx: int, yy: int|
                imgbuf.in_bounds(xx, yy) && yy >= y
                    ==> imgbuf.pixel_at(xx, yy) == old(imgbuf).pixel_at(xx, yy),
        decreases h - y,
    {
        let mut x: u32 = 0;
        while x < w
            invariant
                x <= w,
                y < h,
                imgbuf.wf(),
                imgbuf.spec_width() == w,
                imgbuf.spec_height() == h,
                forall|xx: int, yy: int|
                    imgbuf.in_bounds(xx, yy) && (yy < y || (yy == y && xx < x))
                        ==> imgbuf.pixel_at(xx, yy) == spec_flat_pixel(
                            *circle_center, circle_radius as int, pixel_color,
                            old(imgbuf).pixel_at(xx, yy), xx, yy,
                        ),
                forall|xx: int, yy: int|
                    imgbuf.in_bounds(xx, yy) && (yy > y || (yy == y && xx >= x))
                        ==> imgbuf.pixel_at(xx, yy) == old(imgbuf).pixel_at(xx, yy),
            decreases w - x,
        {
            let curr_point = Point::new_u32(x, y);
            let distance_to_center = calc_eucledian_distance(circle_center, &curr_point);
            if distance_to_center <= circle_radius {
                imgbuf.set(x, y, Pixel::Rgb(pixel_color));
            }
            x = x + 1;
        }
        y = y + 1;
    }
}

/// Paints every pixel inside the circle with the base color hue-rotated
/// by a quarter of that pixel's distance to `rainbow_center`, producing a
/// radial gradient whose center of symmetry is independent of the
/// circle's own center; pixels outside keep their prior value.
#[verifier::loop_isolation(false)]
pub fn draw_circle_rainbow(
    circle_center: &Point,
    circle_radius: i64,
    rainbow_center: &Point,
    starting_color: Hsl,
    imgbuf: &mut Raster,
)
    requires
        old(imgbuf).wf(),
        in_coord_range(*circle_center),
        in_coord_range(*rainbow_center),
        starting_color.wf(),
    ensures
        final(imgbuf).wf(),
        rainbow_filled(
            *old(imgbuf), *final(imgbuf), *circle_center, circle_radius as int,
            *rainbow_center, starting_color,
        ),
{
    let w: u32 = imgbuf.width();
    let h: u32 = imgbuf.height();
    proof {
        imgbuf.lemma_dims_bounded();
    }
    let mut y: u32 = 0;
    while y < h
        invariant
            y <= h,
            imgbuf.wf(),
            imgbuf.spec_width() == w,
            imgbuf.spec_height() == h,
            forall|xx: int, yy: int|
                imgbuf.in_bounds(xx, yy) && yy < y
                    ==> imgbuf.pixel_at(xx, yy) == spec_rainbow_pixel(
                        *circle_center, circle_radius as int, *rainbow_center,
                        starting_color, old(imgbuf).pixel_at(xx, yy), xx, yy,
                    ),
            forall|xx: int, yy: int|
                imgbuf.in_bounds(xx, yy) && yy >= y
                    ==> imgbuf.pixel_at(xx, yy) == old(imgbuf).pixel_at(xx, yy),
        decreases h - y,
    {
        let mut x: u32 = 0;
        while x < w
            invariant
                x <= w,
                y < h,
                imgbuf.wf(),
                imgbuf.spec_width() == w,
                imgbuf.spec_height() == h,
                forall|xx: int, yy: int|
                    imgbuf.in_bounds(xx, yy) && (yy < y || (yy == y && xx < x))
                        ==> imgbuf.pixel_at(xx, yy) == spec_rainbow_pixel(
                            *circle_center, circle_radius as int, *rainbow_center,
                            starting_color, old(imgbuf).pixel_at(xx, yy), xx, yy,
                        ),
                forall|xx: int, yy: int|
                    imgbuf.in_bounds(xx, yy) && (yy > y || (yy == y && xx >= x))
                        ==> imgbuf.pixel_at(xx, yy) == old(imgbuf).pixel_at(xx, yy),
            decreases w - x,
        {
            let curr_point = Point::new_u32(x, y);
            let distance_to_center = calc_eucledian_distance(circle_center, &curr_point);
            let distance_from_corner = calc_eucledian_distance(&curr_point, rainbow_center);
            let hue_shift: i64 = ((distance_from_corner as u64) / 4) as i64;
            if distance_to_center <= circle_radius {
                let shifted = shift_hue(&starting_color, hue_shift);
                imgbuf.set(x, y, Pixel::Hsl(shifted));
            }
            x = x + 1;
        }
        y = y + 1;
    }
}

/// Like the gradient fill, but the hue-rotated color is desaturated by
/// `BW_DESATURATION` before it is written, for the muted background
/// variant of the same gradient field.
#[verifier::loop_isolation(false)]
pub fn draw_circle_rainbow_bw(
    circle_center: &Point,
    circle_radius: i64,
    rainbow_center: &Point,
    starting_color: Hsl,
    imgbuf: &mut Raster,
)
    requires
        old(imgbuf).wf(),
        in_coord_range(*circle_center),
        in_coord_range(*rainbow_center),
        starting_color.wf(),
    ensures
        final(imgbuf).wf(),
        rainbow_bw_filled(
            *old(imgbuf), *final(imgbuf), *circle_center, circle_radius as int,
            *rainbow_center, starting_color,
        ),
{
    let w: u32 = imgbuf.width();
    let h: u32 = imgbuf.height();
    proof {
        imgbuf.lemma_dims_bounded();
    }
    let mut y: u32 = 0;
    while y < h
        invariant
            y <= h,
            imgbuf.wf(),
            imgbuf.spec_width() == w,
            imgbuf.spec_height() == h,
            forall|xx: int, yy: int|
                imgbuf.in_bounds(xx, yy) && yy < y
                    ==> imgbuf.pixel_at(xx, yy) == spec_rainbow_bw_pixel(
                        *circle_center, circle_radius as int, *rainbow_center,
                        starting_color, old(imgbuf).pixel_at(xx, yy), xx, yy,
                    ),
            forall|xx: int, yy: int|
                imgbuf.in_bounds(xx, yy) && yy >= y
                    ==> imgbuf.pixel_at(xx, yy) == old(imgbuf).pixel_at(xx, yy),
        decreases h - y,
    {
        let mut x: u32 = 0;
        while x < w
            invariant
                x <= w,
                y < h,
                imgbuf.wf(),
                imgbuf.spec_width() == w,
                imgbuf.spec_height() == h,
                forall|xx: int, yy: int|
                    imgbuf.in_bounds(xx, yy) && (yy < y || (yy == y && xx < x))
                        ==> imgbuf.pixel_at(xx, yy) == spec_rainbow_bw_pixel(
                            *circle_center, circle_radius as int, *rainbow_center,
                            starting_color, old(imgbuf).pixel_at(xx, yy), xx, yy,
                        ),
                forall|xx: int, yy: int|
                    imgbuf.in_bounds(xx, yy) && (yy > y || (yy == y && xx >= x))
                        ==> imgbuf.pixel_at(xx, yy) == old(imgbuf).pixel_at(xx, yy),
            decreases w - x,
        {
            let curr_point = Point::new_u32(x, y);
            let distance_to_center = calc_eucledian_distance(circle_center, &curr_point);
            let distance_from_corner = calc_eucledian_distance(&curr_point, rainbow_center);
            let hue_shift: i64 = ((distance_from_corner as u64) / 4) as i64;
            if distance_to_center <= circle_radius {
                let shifted = shift_hue(&starting_color, hue_shift);
                let desat_color = desaturate(&shifted, BW_DESATURATION);
                imgbuf.set(x, y, Pixel::Hsl(desat_color));
            }
            x = x + 1;
        }
        y = y + 1;
    }
}

/// Law: the gradient color is a function of the pixel's distance to the
/// hue reference point alone — two pixels at equal distance from it
/// receive the same hue-rotated color, in both gradient variants.
pub proof fn lemma_gradient_color_from_distance(
    rainbow_center: Point,
    starting_color: Hsl,
    x1: int,
    y1: int,
    x2: int,
    y2: int,
)
    requires
        spec_distance(point_at_pixel(x1, y1), rainbow_center)
            == spec_distance(point_at_pixel(x2, y2), rainbow_center),
    ensures
        spec_rainbow_color(rainbow_center, starting_color, x1, y1)
            == spec_rainbow_color(rainbow_center, starting_color, x2, y2),
        spec_rainbow_bw_color(rainbow_center, starting_color, x1, y1)
            == spec_rainbow_bw_color(rainbow_center, starting_color, x2, y2),
{
}

/// Law: when two flat circle fills are applied in order, a pixel inside
/// the second circle holds the second fill's color afterwards — the later
/// draw paints over the earlier one, and if the two colors differ the
/// pixel does not hold the first one.
pub proof fn lemma_overlap_second_circle_wins(
    r0: Raster,
    r1: Raster,
    r2: Raster,
    c1: Point,
    rad1: int,
    col1: Rgb,
    c2: Point,
    rad2: int,
    col2: Rgb,
    x: int,
    y: int,
)
    requires
        flat_filled(r0, r1, c1, rad1, col1),
        flat_filled(r1, r2, c2, rad2, col2),
        r2.in_bounds(x, y),
        pixel_in_circle(c2, rad2, x, y),
    ensures
        r2.pixel_at(x, y) == Pixel::Rgb(col2),
        col1 != col2 ==> r2.pixel_at(x, y) != Pixel::Rgb(col1),
{
    assert(r2.pixel_at(x, y) == spec_flat_pixel(c2, rad2, col2, r1.pixel_at(x, y), x, y));
}

} // verus!
