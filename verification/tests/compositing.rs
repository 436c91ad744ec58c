//! Tests for the compositing routines: flat fills, gradient fills, the
//! muted gradient variant, and the layering of several circles.

use logo_gen::color::{Hsl, Rgb};
use logo_gen::draw::{draw_circle, draw_circle_rainbow, draw_circle_rainbow_bw};
use logo_gen::geom_helpers::Point;
use logo_gen::raster::{Pixel, Raster};
use logo_gen::FP_SCALE;

fn white() -> Pixel {
    Pixel::Rgb(Rgb::new(255, 255, 255))
}

#[test]
fn test_raster_new_get_set() {
    let mut buf = Raster::new(3, 2, white());
    assert_eq!(buf.width(), 3);
    assert_eq!(buf.height(), 2);
    for y in 0..2 {
        for x in 0..3 {
            assert_eq!(buf.get(x, y), white());
        }
    }
    let red = Pixel::Rgb(Rgb::new(200, 10, 10));
    buf.set(1, 1, red);
    assert_eq!(buf.get(1, 1), red);
    assert_eq!(buf.get(0, 1), white());
    assert_eq!(buf.get(1, 0), white());
    assert_eq!(buf.get(2, 1), white());
}

#[test]
fn test_flat_fill_inside_and_outside() {
    let red = Rgb::new(200, 10, 10);
    let mut buf = Raster::new(9, 9, white());
    let center = Point::new_u32(4, 4);
    draw_circle(&center, 2 * FP_SCALE, red, &mut buf);

    // pixels within two units of the center are painted, radius inclusive
    assert_eq!(buf.get(4, 4), Pixel::Rgb(red));
    assert_eq!(buf.get(2, 4), Pixel::Rgb(red));
    assert_eq!(buf.get(6, 4), Pixel::Rgb(red));
    assert_eq!(buf.get(4, 2), Pixel::Rgb(red));
    assert_eq!(buf.get(4, 6), Pixel::Rgb(red));
    assert_eq!(buf.get(3, 3), Pixel::Rgb(red));

    // pixels strictly outside keep their prior value
    assert_eq!(buf.get(1, 4), white());
    assert_eq!(buf.get(7, 4), white());
    assert_eq!(buf.get(0, 0), white());
    assert_eq!(buf.get(6, 6), white());
}

#[test]
fn test_flat_fill_radius_zero() {
    let blue = Rgb::new(10, 10, 200);
    let mut buf = Raster::new(5, 5, white());
    let center = Point::new_u32(2, 2);
    draw_circle(&center, 0, blue, &mut buf);
    assert_eq!(buf.get(2, 2), Pixel::Rgb(blue));
    assert_eq!(buf.get(1, 2), white());
    assert_eq!(buf.get(2, 3), white());
}

#[test]
fn test_overlap_second_circle_wins() {
    let red = Rgb::new(200, 10, 10);
    let blue = Rgb::new(10, 10, 200);
    let mut buf = Raster::new(9, 9, white());

    draw_circle(&Point::new_u32(3, 4), 2 * FP_SCALE, red, &mut buf);
    draw_circle(&Point::new_u32(5, 4), 2 * FP_SCALE, blue, &mut buf);

    // (4, 4) is inside both circles: the later draw owns it
    assert_eq!(buf.get(4, 4), Pixel::Rgb(blue));
    // inside the first circle only
    assert_eq!(buf.get(1, 4), Pixel::Rgb(red));
    // inside the second circle only
    assert_eq!(buf.get(7, 4), Pixel::Rgb(blue));
    // outside both
    assert_eq!(buf.get(0, 0), white());
}

#[test]
fn test_gradient_equal_distance_same_color() {
    let base = Hsl::new(800_000, 9_000, 5_000);
    let mut buf = Raster::new(9, 9, white());
    let rainbow_center = Point::new_u32(0, 0);
    draw_circle_rainbow(
        &Point::new_u32(4, 4),
        6 * FP_SCALE,
        &rainbow_center,
        base,
        &mut buf,
    );

    // (1, 2) and (2, 1) lie at the same distance from the hue reference
    // point, so they receive the same hue-rotated color.
    assert_eq!(buf.get(1, 2), buf.get(2, 1));
    // sqrt(5) = 2.2360..., 22360 subunits; a quarter of that is 5590
    assert_eq!(buf.get(1, 2), Pixel::Hsl(Hsl::new(805_590, 9_000, 5_000)));

    // the hue reference point itself gets the unrotated base color
    assert_eq!(buf.get(0, 0), Pixel::Hsl(base));
}

#[test]
fn test_gradient_outside_unchanged() {
    let base = Hsl::new(800_000, 9_000, 5_000);
    let mut buf = Raster::new(9, 9, white());
    draw_circle_rainbow(
        &Point::new_u32(4, 4),
        2 * FP_SCALE,
        &Point::new_u32(0, 0),
        base,
        &mut buf,
    );
    assert_eq!(buf.get(0, 0), white());
    assert_eq!(buf.get(8, 8), white());
    assert_eq!(buf.get(1, 4), white());
}

#[test]
fn test_rainbow_bw_desaturates() {
    let base = Hsl::new(800_000, 9_000, 1_000);
    let mut buf = Raster::new(9, 9, white());
    let origin = Point::new_u32(0, 0);
    draw_circle_rainbow_bw(&origin, 20 * FP_SCALE, &origin, base, &mut buf);

    // at the reference point the hue is unrotated, and 0.8 of the
    // saturation is removed: 0.9 * 0.2 = 0.18
    assert_eq!(buf.get(0, 0), Pixel::Hsl(Hsl::new(800_000, 1_800, 1_000)));

    // (3, 4) is five units from the origin: hue shifted by 50000/4
    assert_eq!(buf.get(3, 4), Pixel::Hsl(Hsl::new(812_500, 1_800, 1_000)));
}

#[test]
fn test_layering_flat_then_gradient() {
    // a gray ring effect: a slightly larger flat circle under a smaller
    // gradient circle, as the orchestration layers them
    let gray = Rgb::new(164, 164, 164);
    let base = Hsl::new(800_000, 9_000, 5_000);
    let mut buf = Raster::new(11, 11, white());
    let center = Point::new_u32(5, 5);
    draw_circle(&center, 3 * FP_SCALE, gray, &mut buf);
    draw_circle_rainbow(&center, 2 * FP_SCALE, &Point::new_u32(0, 0), base, &mut buf);

    // inside the inner circle: gradient color
    assert!(matches!(buf.get(5, 5), Pixel::Hsl(_)));
    // in the ring between the radii: still the flat gray
    assert_eq!(buf.get(2, 5), Pixel::Rgb(gray));
    // far outside: untouched
    assert_eq!(buf.get(0, 0), white());
}
