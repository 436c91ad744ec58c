//! Tests for the coordinate model: distance and viewport translation.
//! Whole logical units are `FP_SCALE` subunits; one subunit is 1e-4 of a
//! unit, so the classic float tolerance of 1e-4 is one subunit here.

use logo_gen::geom_helpers::{calc_eucledian_distance, ImgSize, Point, Viewport};
use logo_gen::FP_SCALE;

fn fixed(units: i64) -> i64 {
    units * FP_SCALE
}

fn distance_close(x1: i64, y1: i64, x2: i64, y2: i64, expected: i64) -> bool {
    let allowed_delta: i64 = 1;
    let p1 = Point::new(x1, y1);
    let p2 = Point::new(x2, y2);
    let distance = calc_eucledian_distance(&p1, &p2);
    (distance - expected).abs() <= allowed_delta
}

#[test]
fn test_calc_eucledian_distance() {
    assert!(distance_close(fixed(0), fixed(0), fixed(0), fixed(0), fixed(0)));

    assert!(!distance_close(fixed(0), fixed(0), fixed(0), fixed(0), fixed(1)));

    assert!(distance_close(fixed(0), fixed(0), fixed(1), fixed(0), fixed(1)));
    assert!(distance_close(fixed(0), fixed(0), fixed(0), fixed(1), fixed(1)));
    assert!(distance_close(fixed(0), fixed(0), fixed(-1), fixed(0), fixed(1)));
    assert!(distance_close(fixed(0), fixed(0), fixed(0), fixed(-1), fixed(1)));

    // sqrt(2) = 1.41421356..., 14142 subunits rounded down
    assert!(distance_close(fixed(0), fixed(0), fixed(1), fixed(1), 14_142));

    assert!(distance_close(fixed(-2), fixed(3), fixed(12), fixed(45), 442_719));
    assert!(distance_close(fixed(12), fixed(45), fixed(-2), fixed(3), 442_719));
}

#[test]
fn test_viewport_translation() {
    let img_size = ImgSize(100, 200);
    let viewport = Viewport::from(&img_size);

    let p2 = viewport.translate(Point::new(fixed(0), fixed(0)));
    assert_eq!(p2.x, fixed(50));
    assert_eq!(p2.y, fixed(100));

    let p2 = viewport.translate(Point::new(fixed(-20), fixed(30)));
    assert_eq!(p2.x, fixed(30));
    assert_eq!(p2.y, fixed(70));

    let p2 = viewport.translate(Point::new(fixed(-50), fixed(100)));
    assert_eq!(p2.x, fixed(0));
    assert_eq!(p2.y, fixed(0));

    let p2 = viewport.translate(Point::new(fixed(50), fixed(100)));
    assert_eq!(p2.x, fixed(100));
    assert_eq!(p2.y, fixed(0));

    let p2 = viewport.translate(Point::new(fixed(50), fixed(-100)));
    assert_eq!(p2.x, fixed(100));
    assert_eq!(p2.y, fixed(200));

    let p2 = viewport.translate(Point::new(fixed(-50), fixed(-100)));
    assert_eq!(p2.x, fixed(0));
    assert_eq!(p2.y, fixed(200));

    let p2 = viewport.translate(Point::new(fixed(20), fixed(130)));
    assert_eq!(p2.x, fixed(70));
    assert_eq!(p2.y, fixed(0));

    let p2 = viewport.translate(Point::new(fixed(20), fixed(-130)));
    assert_eq!(p2.x, fixed(70));
    assert_eq!(p2.y, fixed(200));

    let p2 = viewport.translate(Point::new(fixed(-150), fixed(30)));
    assert_eq!(p2.x, fixed(0));
    assert_eq!(p2.y, fixed(70));

    let p2 = viewport.translate(Point::new(fixed(150), fixed(30)));
    assert_eq!(p2.x, fixed(100));
    assert_eq!(p2.y, fixed(70));
}

#[test]
fn test_translate_rounds_halves_away_from_zero() {
    let viewport = Viewport::from(&ImgSize(100, 200));
    // 50.5 rounds up to 51, not down to 50
    let p = viewport.translate(Point::new(FP_SCALE / 2, 0));
    assert_eq!(p.x, fixed(51));
    // 99.5 rounds down (toward zero) on the flipped y axis: 100 - (-0.5)
    let q = viewport.translate(Point::new(0, -FP_SCALE / 2));
    assert_eq!(q.y, fixed(101));
}

#[test]
fn test_translate_not_idempotent() {
    let viewport = Viewport::from(&ImgSize(100, 200));
    let once = viewport.translate(Point::new(fixed(0), fixed(0)));
    assert_eq!(once.x, fixed(50));
    assert_eq!(once.y, fixed(100));
    // Feeding the pixel coordinate back in as if it were a logical point
    // does not return the same coordinate: translate is not its own
    // inverse.
    let twice = viewport.translate(once);
    assert_ne!(twice, once);
    assert_eq!(twice.x, fixed(100));
    assert_eq!(twice.y, fixed(0));
}

#[test]
fn test_distance_symmetry() {
    let a = Point::new(fixed(7), fixed(-13));
    let b = Point::new(fixed(-4), fixed(9));
    let ab = calc_eucledian_distance(&a, &b);
    let ba = calc_eucledian_distance(&b, &a);
    assert_eq!(ab, ba);

    let c = Point::new(123_456, -9_876);
    let d = Point::new(-54_321, 67_890);
    assert_eq!(
        calc_eucledian_distance(&c, &d),
        calc_eucledian_distance(&d, &c)
    );
}

#[test]
fn test_distance_zero_iff_same_point() {
    let p = Point::new(fixed(-31), fixed(17));
    assert_eq!(calc_eucledian_distance(&p, &p), 0);
    // two points one subunit apart are not at distance zero
    let q = Point::new(fixed(-31) + 1, fixed(17));
    assert_ne!(calc_eucledian_distance(&p, &q), 0);
}

#[test]
fn test_distance_pythagorean_triple() {
    let origin = Point::new(fixed(0), fixed(0));
    let p = Point::new(fixed(3), fixed(4));
    assert_eq!(calc_eucledian_distance(&origin, &p), fixed(5));
}

#[test]
fn test_distance_known_value() {
    // distance((-2,3), (12,45)) = 44.27188... ~ 44.2719 within 1e-4
    let p1 = Point::new(fixed(-2), fixed(3));
    let p2 = Point::new(fixed(12), fixed(45));
    let d = calc_eucledian_distance(&p1, &p2);
    assert!((d - 442_719).abs() <= 1);
}

#[test]
fn test_point_constructors() {
    let p = Point::new(123, -456);
    assert_eq!(p.x, 123);
    assert_eq!(p.y, -456);
    assert!(p.in_range());

    let q = Point::new_u32(7, 9);
    assert_eq!(q.x, fixed(7));
    assert_eq!(q.y, fixed(9));

    let r = Point::from((fixed(2), fixed(-3)));
    assert_eq!(r, Point::new(fixed(2), fixed(-3)));

    let far = Point::new(2_000_000_000, 0);
    assert!(!far.in_range());
}

#[test]
fn test_viewport_from_img_size() {
    let v = Viewport::from(&ImgSize(1024, 768));
    assert_eq!(v.width, fixed(1024));
    assert_eq!(v.height, fixed(768));
    assert!(v.is_well_formed());
}
