use uno_no_mercy_video::canvas::Canvas;
use uno_no_mercy_video::color::Color;
use uno_no_mercy_video::fixed::Fixed;
use uno_no_mercy_video::shapes::{
    diagonal_beam, edge_alpha, ellipse_outline, falloff_alpha, hypot, point_in_rounded_rect,
    rounded_rect, shaded_ellipse, smooth_circle, smooth_ellipse, soft_circle,
};

const RED: Color = Color { r: 255, g: 0, b: 0, a: 255 };
const BLANK: Color = Color { r: 0, g: 0, b: 0, a: 0 };

fn fi(n: i64) -> Fixed {
    Fixed::from_int(n)
}

#[test]
fn rounded_rect_corner_zones() {
    assert!(!point_in_rounded_rect(0, 0, 20, 20, 5));
    assert!(!point_in_rounded_rect(1, 1, 20, 20, 5));
    assert!(point_in_rounded_rect(2, 2, 20, 20, 5));
    assert!(point_in_rounded_rect(5, 0, 20, 20, 5));
    assert!(point_in_rounded_rect(0, 5, 20, 20, 5));
    assert!(!point_in_rounded_rect(19, 0, 20, 20, 5));
    assert!(point_in_rounded_rect(16, 2, 20, 20, 5));
    assert!(!point_in_rounded_rect(0, 19, 20, 20, 5));
    assert!(point_in_rounded_rect(2, 17, 20, 20, 5));
    assert!(!point_in_rounded_rect(19, 19, 20, 20, 5));
    assert!(point_in_rounded_rect(17, 17, 20, 20, 5));
    assert!(point_in_rounded_rect(10, 10, 20, 20, 5));
}

#[test]
fn rounded_rect_without_radius_is_a_rectangle() {
    for p in [(0, 0), (19, 0), (0, 19), (19, 19), (7, 3)] {
        assert!(point_in_rounded_rect(p.0, p.1, 20, 20, 0));
        assert!(point_in_rounded_rect(p.0, p.1, 20, 20, -4));
    }
}

#[test]
fn rounded_rect_takes_extreme_coordinates() {
    assert!(!point_in_rounded_rect(i32::MIN, i32::MIN, i32::MAX, i32::MAX, i32::MAX));
    assert!(!point_in_rounded_rect(i32::MAX, i32::MAX, i32::MIN, i32::MIN, i32::MIN));
    assert!(point_in_rounded_rect(i32::MIN, i32::MIN, i32::MAX, i32::MAX, i32::MIN));
}

#[test]
fn rounded_rect_fills_its_shape_only() {
    let mut img = Canvas::new(30, 30);
    rounded_rect(&mut img, 5, 5, 20, 20, 5, RED);
    for y in 0..30i32 {
        for x in 0..30i32 {
            let inside = (5..25).contains(&x) && (5..25).contains(&y)
                && point_in_rounded_rect(x - 5, y - 5, 20, 20, 5);
            let want = if inside { RED } else { BLANK };
            assert_eq!(img.get_pixel(x as u32, y as u32), want, "at {} {}", x, y);
        }
    }
    assert_eq!(img.get_pixel(5, 5), BLANK);
    assert_eq!(img.get_pixel(7, 7), RED);
}

#[test]
fn rounded_rect_is_clipped_to_the_canvas() {
    let mut img = Canvas::new(10, 10);
    rounded_rect(&mut img, -5, -5, 10, 10, 0, RED);
    rounded_rect(&mut img, 8, 8, 100, 100, 0, RED);
    rounded_rect(&mut img, 3, 3, 0, 5, 2, RED);
    rounded_rect(&mut img, i32::MAX, i32::MIN, u32::MAX, u32::MAX, 3, RED);
    for y in 0..10 {
        for x in 0..10 {
            let inside = (x < 5 && y < 5) || (x >= 8 && y >= 8);
            assert_eq!(img.get_pixel(x, y), if inside { RED } else { BLANK });
        }
    }
}

#[test]
fn rounded_rect_blends_over_what_is_there() {
    let mut img = Canvas::filled(4, 4, Color::rgba(0, 0, 255, 255));
    rounded_rect(&mut img, 0, 0, 4, 4, 0, Color::rgba(255, 0, 0, 128));
    assert_eq!(img.get_pixel(1, 1), Color::rgba(128, 0, 127, 255));
}

#[test]
fn ellipse_centre_is_filled() {
    let mut img = Canvas::new(60, 40);
    smooth_ellipse(&mut img, fi(30), fi(20), fi(20), fi(10), RED);
    assert_eq!(img.get_pixel(30, 20), RED);
    assert_eq!(img.get_pixel(12, 20), RED);
    assert_eq!(img.get_pixel(30, 12), RED);
}

#[test]
fn ellipse_far_pixels_are_untouched() {
    let mut img = Canvas::new(60, 40);
    smooth_ellipse(&mut img, fi(30), fi(20), fi(20), fi(10), RED);
    assert_eq!(img.get_pixel(51, 20), BLANK);
    assert_eq!(img.get_pixel(52, 20), BLANK);
    assert_eq!(img.get_pixel(9, 20), BLANK);
    assert_eq!(img.get_pixel(30, 31), BLANK);
    assert_eq!(img.get_pixel(0, 0), BLANK);
    assert_eq!(img.get_pixel(59, 39), BLANK);
    assert_eq!(img.get_pixel(45, 28), BLANK);
}

#[test]
fn ellipse_edge_is_anti_aliased() {
    let mut img = Canvas::new(300, 300);
    smooth_circle(&mut img, fi(150), fi(150), fi(100), RED);
    assert_eq!(img.get_pixel(249, 150), RED);
    assert_eq!(img.get_pixel(250, 150), RED);
    assert_eq!(img.get_pixel(251, 150), Color::rgba(255, 0, 0, 204));
    assert_eq!(img.get_pixel(48, 150), Color::rgba(255, 0, 0, 153));
    assert_eq!(img.get_pixel(150, 48), Color::rgba(255, 0, 0, 153));
}

#[test]
fn ellipse_edge_of_large_shapes_is_whole() {
    let mut img = Canvas::new(300, 300);
    smooth_circle(&mut img, fi(150), fi(150), fi(100), RED);
    assert_eq!(img.get_pixel(252, 150), Color::rgba(255, 0, 0, 153));
    assert_eq!(img.get_pixel(150, 252), Color::rgba(255, 0, 0, 153));
    assert_eq!(img.get_pixel(253, 150), Color::rgba(255, 0, 0, 102));
    assert_eq!(img.get_pixel(254, 150), Color::rgba(255, 0, 0, 51));
    assert_eq!(img.get_pixel(255, 150), BLANK);
    assert_eq!(img.get_pixel(256, 150), BLANK);
    assert_eq!(img.get_pixel(45, 150), BLANK);
    assert_eq!(img.get_pixel(46, 150), Color::rgba(255, 0, 0, 51));
}

#[test]
fn shapes_with_extreme_parameters_scan_the_whole_canvas() {
    let mut img = Canvas::new(6, 6);
    smooth_ellipse(&mut img, fi(3), fi(3), Fixed::millionths(i64::MAX), Fixed::millionths(i64::MAX), RED);
    for y in 0..6 {
        for x in 0..6 {
            assert_eq!(img.get_pixel(x, y), RED);
        }
    }
    let mut img = Canvas::new(6, 6);
    smooth_ellipse(&mut img, fi(3), fi(3), fi(-2), fi(-2), RED);
    assert_eq!(img.get_pixel(3, 3), RED);
    assert_eq!(img.get_pixel(4, 3), RED);
    assert_eq!(img.get_pixel(0, 0), BLANK);
    let mut img = Canvas::filled(6, 6, Color::rgba(0, 0, 0, 255));
    soft_circle(&mut img, fi(3), fi(3), fi(-5), Color::rgba(255, 255, 255, 255));
    assert_eq!(img.get_pixel(3, 3), Color::rgba(0, 0, 0, 255));
    soft_circle(&mut img, Fixed::millionths(i64::MIN), fi(3), Fixed::millionths(i64::MAX), Color::rgba(255, 255, 255, 255));
    assert_eq!(img.get_pixel(3, 3), Color::rgba(255, 255, 255, 255));
    assert_eq!(img.get_pixel(0, 5), Color::rgba(255, 255, 255, 255));
}

#[test]
fn ellipse_of_no_radius_touches_only_its_centre_column_and_row() {
    let mut img = Canvas::new(9, 9);
    smooth_ellipse(&mut img, fi(4), fi(4), Fixed::zero(), Fixed::zero(), RED);
    assert_eq!(img.get_pixel(4, 4), RED);
    assert_eq!(img.get_pixel(5, 5), BLANK);
    assert_eq!(img.get_pixel(0, 0), BLANK);
    assert_eq!(img.get_pixel(8, 8), BLANK);
}

#[test]
fn ellipse_outside_the_canvas_draws_nothing_and_does_not_fail() {
    let mut img = Canvas::new(8, 8);
    smooth_ellipse(&mut img, fi(-500), fi(-500), fi(20), fi(20), RED);
    smooth_ellipse(&mut img, fi(500), fi(4), fi(20), fi(20), RED);
    smooth_ellipse(&mut img, Fixed::millionths(i64::MAX), Fixed::millionths(i64::MIN), fi(2), fi(2), RED);
    for y in 0..8 {
        for x in 0..8 {
            assert_eq!(img.get_pixel(x, y), BLANK);
        }
    }
}

#[test]
fn edge_alpha_falls_linearly() {
    assert_eq!(edge_alpha(Fixed::one(), 255), 255);
    assert_eq!(edge_alpha(Fixed::millionths(1_025_000), 255), 127);
    assert_eq!(edge_alpha(Fixed::millionths(1_050_000), 255), 0);
    assert_eq!(edge_alpha(Fixed::millionths(1_020_000), 80), 48);
}

#[test]
fn hypot_of_a_right_triangle() {
    assert_eq!(hypot(fi(3), fi(4)).raw, 5_000_000);
    assert_eq!(hypot(fi(-3), fi(4)).raw, 5_000_000);
    assert_eq!(hypot(Fixed::zero(), Fixed::zero()).raw, 0);
}

#[test]
fn shaded_ellipse_is_lit_from_the_top_left() {
    let mut img = Canvas::new(100, 100);
    let base = Color::rgba(100, 100, 100, 255);
    let shadow = Color::rgba(0, 0, 0, 255);
    let highlight = Color::rgba(255, 255, 255, 255);
    shaded_ellipse(&mut img, fi(50), fi(50), fi(40), fi(40), base, shadow, highlight);
    let top_left = img.get_pixel(30, 30);
    let bottom_right = img.get_pixel(70, 70);
    let centre = img.get_pixel(50, 50);
    assert_eq!(top_left.a, 255);
    assert_eq!(bottom_right.a, 255);
    assert!(top_left.r > centre.r, "{:?} {:?}", top_left, centre);
    assert!(centre.r > bottom_right.r, "{:?} {:?}", centre, bottom_right);
    assert_eq!(centre, Color::rgba(152, 152, 152, 255));
    assert_eq!(img.get_pixel(50, 11), Color::rgba(252, 252, 252, 255));
    assert_eq!(img.get_pixel(50, 10), Color::rgba(100, 100, 100, 255));
    assert_eq!(img.get_pixel(50, 8), BLANK);
    assert_eq!(img.get_pixel(2, 2), BLANK);
}

#[test]
fn ellipse_outline_is_a_ring() {
    let mut img = Canvas::new(100, 100);
    ellipse_outline(&mut img, fi(50), fi(50), fi(30), fi(30), fi(6), RED);
    assert_eq!(img.get_pixel(50, 50), BLANK);
    assert_eq!(img.get_pixel(70, 50), BLANK);
    assert_eq!(img.get_pixel(83, 50), RED);
    assert_eq!(img.get_pixel(17, 50), RED);
    assert_eq!(img.get_pixel(50, 83), RED);
    assert_eq!(img.get_pixel(88, 50), BLANK);
    assert_eq!(img.get_pixel(80, 50), BLANK);
    let inner_edge = img.get_pixel(81, 50);
    assert_eq!(inner_edge, Color::rgba(255, 0, 0, 169));
}

#[test]
fn soft_circle_is_brightest_in_the_middle() {
    let mut img = Canvas::filled(41, 41, Color::rgba(10, 10, 10, 255));
    soft_circle(&mut img, fi(20), fi(20), fi(10), Color::rgba(200, 100, 0, 255));
    assert_eq!(img.get_pixel(20, 20), Color::rgba(210, 110, 10, 255));
    assert_eq!(img.get_pixel(25, 20), Color::rgba(59, 34, 10, 255));
    assert_eq!(img.get_pixel(30, 20), Color::rgba(10, 10, 10, 255));
    assert_eq!(img.get_pixel(0, 0), Color::rgba(10, 10, 10, 255));
}

#[test]
fn falloff_alpha_is_quadratic() {
    assert_eq!(falloff_alpha(Fixed::zero(), fi(10), 255), 255);
    assert_eq!(falloff_alpha(fi(5), fi(10), 255), 63);
    assert_eq!(falloff_alpha(fi(10), fi(10), 255), 0);
    assert_eq!(falloff_alpha(fi(15), fi(30), 80), 20);
}

#[test]
fn diagonal_beam_leans_with_the_rows() {
    let mut img = Canvas::filled(100, 100, Color::rgba(0, 0, 0, 255));
    diagonal_beam(&mut img, 20, Color::rgba(255, 255, 255, 200), 10, Fixed::millionths(500_000));
    assert_eq!(img.get_pixel(20, 0), Color::rgba(200, 200, 200, 255));
    assert_eq!(img.get_pixel(25, 0), Color::rgba(100, 100, 100, 255));
    assert_eq!(img.get_pixel(30, 0), Color::rgba(0, 0, 0, 255));
    assert_eq!(img.get_pixel(9, 0), Color::rgba(0, 0, 0, 255));
    assert_eq!(img.get_pixel(10, 0), Color::rgba(0, 0, 0, 255));
    assert_eq!(img.get_pixel(45, 50), Color::rgba(200, 200, 200, 255));
    assert_eq!(img.get_pixel(69, 99), Color::rgba(200, 200, 200, 255));
}
