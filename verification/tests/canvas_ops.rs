use uno_no_mercy_video::canvas::{can_allocate, Canvas};
use uno_no_mercy_video::color::Color;
use uno_no_mercy_video::fixed::Fixed;

const RED: Color = Color { r: 255, g: 0, b: 0, a: 255 };
const BLUE: Color = Color { r: 0, g: 0, b: 255, a: 255 };

fn bytes_of(c: &Canvas) -> Vec<u8> {
    c.duplicate().into_bytes()
}

#[test]
fn new_canvas_is_blank() {
    let c = Canvas::new(7, 5);
    assert_eq!(c.width(), 7);
    assert_eq!(c.height(), 5);
    for y in 0..5 {
        for x in 0..7 {
            assert_eq!(c.get_pixel(x, y), Color::transparent());
        }
    }
}

#[test]
fn empty_canvas_has_no_pixels() {
    let c = Canvas::new(0, 0);
    assert_eq!(c.width(), 0);
    assert_eq!(c.pixel(0, 0), None);
    assert_eq!(c.into_bytes().len(), 0);
}

#[test]
fn put_pixel_changes_one_pixel() {
    let mut c = Canvas::new(4, 4);
    c.put_pixel(2, 1, RED);
    for y in 0..4 {
        for x in 0..4 {
            let want = if x == 2 && y == 1 { RED } else { Color::transparent() };
            assert_eq!(c.get_pixel(x, y), want);
        }
    }
}

#[test]
fn pixel_outside_is_none() {
    let c = Canvas::filled(3, 2, BLUE);
    assert_eq!(c.pixel(2, 1), Some(BLUE));
    assert_eq!(c.pixel(3, 1), None);
    assert_eq!(c.pixel(0, 2), None);
}

#[test]
fn bytes_run_row_by_row() {
    let mut c = Canvas::new(2, 2);
    c.put_pixel(1, 0, Color::rgba(1, 2, 3, 4));
    c.put_pixel(0, 1, Color::rgba(5, 6, 7, 8));
    assert_eq!(c.into_bytes(), vec![0, 0, 0, 0, 1, 2, 3, 4, 5, 6, 7, 8, 0, 0, 0, 0]);
}

#[test]
fn from_bytes_needs_enough_bytes() {
    assert!(Canvas::from_bytes(2, 2, vec![0; 15]).is_none());
    let c = Canvas::from_bytes(2, 1, vec![9, 8, 7, 6, 5, 4, 3, 2]).unwrap();
    assert_eq!(c.get_pixel(0, 0), Color::rgba(9, 8, 7, 6));
    assert_eq!(c.get_pixel(1, 0), Color::rgba(5, 4, 3, 2));
}

#[test]
fn fill_rect_is_clipped() {
    let mut c = Canvas::new(5, 5);
    c.fill_rect(-2, 3, 4, 10, RED);
    for y in 0..5 {
        for x in 0..5 {
            let want = if x < 2 && y >= 3 { RED } else { Color::transparent() };
            assert_eq!(c.get_pixel(x, y), want, "at {} {}", x, y);
        }
    }
}

#[test]
fn fill_rect_of_no_extent_draws_nothing() {
    let mut c = Canvas::filled(3, 3, BLUE);
    c.fill_rect(0, 0, 0, 3, RED);
    c.fill_rect(0, 0, 3, 0, RED);
    c.fill_rect(5, 5, 2, 2, RED);
    c.fill_rect(i32::MAX, i32::MAX, u32::MAX, u32::MAX, RED);
    for y in 0..3 {
        for x in 0..3 {
            assert_eq!(c.get_pixel(x, y), BLUE);
        }
    }
}

#[test]
fn fill_rect_overwrites_without_blending() {
    let mut c = Canvas::filled(2, 2, BLUE);
    c.fill_rect(0, 0, 2, 1, Color::rgba(9, 9, 9, 10));
    assert_eq!(c.get_pixel(0, 0), Color::rgba(9, 9, 9, 10));
    assert_eq!(c.get_pixel(0, 1), BLUE);
}

#[test]
fn composite_places_the_layer() {
    let mut frame = Canvas::filled(6, 6, BLUE);
    let layer = Canvas::filled(2, 3, RED);
    frame.composite(&layer, 3, 1);
    for y in 0..6 {
        for x in 0..6 {
            let inside = (3..5).contains(&x) && (1..4).contains(&y);
            assert_eq!(frame.get_pixel(x, y), if inside { RED } else { BLUE });
        }
    }
}

#[test]
fn composite_clips_at_the_edges() {
    let mut frame = Canvas::filled(4, 4, BLUE);
    let layer = Canvas::filled(3, 3, RED);
    frame.composite(&layer, -2, -1);
    frame.composite(&layer, 3, 3);
    frame.composite(&layer, 40, 40);
    frame.composite(&layer, i32::MIN, i32::MAX);
    for y in 0..4 {
        for x in 0..4 {
            let inside = (x == 0 && y < 2) || (x == 3 && y == 3);
            assert_eq!(frame.get_pixel(x, y), if inside { RED } else { BLUE }, "at {} {}", x, y);
        }
    }
}

#[test]
fn compositing_a_transparent_layer_changes_nothing() {
    let mut frame = Canvas::new(5, 4);
    for y in 0..4 {
        for x in 0..5 {
            frame.put_pixel(x, y, Color::rgba((x * 50) as u8, (y * 60) as u8, 7, (x * 40 + y) as u8));
        }
    }
    let before = bytes_of(&frame);
    let mut layer = Canvas::new(3, 3);
    layer.put_pixel(1, 1, Color::rgba(255, 255, 255, 0));
    frame.composite(&layer, 1, 0);
    frame.composite_with_alpha(&layer, 0, 0, Fixed::millionths(500_000));
    assert_eq!(bytes_of(&frame), before);
}

#[test]
fn composite_with_alpha_scales_the_layer_alpha() {
    let mut frame = Canvas::filled(1, 1, BLUE);
    let layer = Canvas::filled(1, 1, RED);
    frame.composite_with_alpha(&layer, 0, 0, Fixed::millionths(500_000));
    assert_eq!(frame.get_pixel(0, 0), Color::rgba(127, 0, 127, 255));
    let mut frame = Canvas::filled(1, 1, BLUE);
    frame.composite_with_alpha(&layer, 0, 0, Fixed::zero());
    assert_eq!(frame.get_pixel(0, 0), BLUE);
    let mut frame = Canvas::filled(1, 1, BLUE);
    frame.composite_with_alpha(&layer, 0, 0, Fixed::from_int(-1));
    assert_eq!(frame.get_pixel(0, 0), BLUE);
}

#[test]
fn faint_layers_still_count() {
    let mut frame = Canvas::filled(1, 1, Color::rgba(0, 0, 200, 100));
    let layer = Canvas::filled(1, 1, Color::rgba(200, 0, 0, 1));
    frame.composite_with_alpha(&layer, 0, 0, Fixed::millionths(500_000));
    assert_eq!(frame.get_pixel(0, 0), Color::rgba(0, 0, 199, 100));
    let mut frame = Canvas::new(1, 1);
    frame.composite_with_alpha(&layer, 0, 0, Fixed::millionths(500_000));
    assert_eq!(frame.get_pixel(0, 0), Color::rgba(200, 0, 0, 0));
}

#[test]
fn layer_alpha_beyond_one_counts_as_one() {
    let layer = Canvas::filled(1, 1, Color::rgba(255, 0, 0, 128));
    let mut a = Canvas::filled(1, 1, BLUE);
    a.composite_with_alpha(&layer, 0, 0, Fixed::from_int(3));
    let mut b = Canvas::filled(1, 1, BLUE);
    b.composite(&layer, 0, 0);
    assert_eq!(a.get_pixel(0, 0), b.get_pixel(0, 0));
    assert_eq!(a.get_pixel(0, 0), Color::rgba(128, 0, 127, 255));
}

#[test]
fn duplicate_is_a_copy() {
    let mut c = Canvas::filled(3, 2, BLUE);
    let d = c.duplicate();
    c.put_pixel(0, 0, RED);
    assert_eq!(d.get_pixel(0, 0), BLUE);
    assert_eq!(d.width(), 3);
    assert_eq!(d.height(), 2);
}

#[test]
fn resized_has_the_extent_asked_for() {
    let c = Canvas::filled(10, 20, RED);
    let d = c.resized(5, 8);
    assert_eq!(d.width(), 5);
    assert_eq!(d.height(), 8);
    assert_eq!(d.get_pixel(2, 4), RED);
    let e = c.resized(30, 3);
    assert_eq!(e.width(), 30);
    assert_eq!(e.height(), 3);
    assert_eq!(e.get_pixel(29, 2), RED);
}

#[test]
fn resized_twice_gives_the_same_pixels() {
    let mut c = Canvas::new(9, 7);
    for y in 0..7 {
        for x in 0..9 {
            c.put_pixel(x, y, Color::rgba((x * 28) as u8, (y * 36) as u8, (x * y) as u8, 255));
        }
    }
    let a = c.resized(13, 4).into_bytes();
    let b = c.resized(13, 4).into_bytes();
    assert_eq!(a, b);
    assert_ne!(a, c.resized(13, 5).into_bytes());
}

#[test]
fn a_row_that_does_not_fit_fails_without_rows() {
    let wide: u32 = 0x4000_0000;
    let row_fits = 4u64 * (wide as u64) <= usize::MAX as u64;
    assert_eq!(Canvas::from_bytes(wide, 0, Vec::new()).is_some(), row_fits);
    assert_eq!(can_allocate(wide, 0), 32u64 * (wide as u64) <= usize::MAX as u64);
    if can_allocate(wide, 0) {
        let c = Canvas::new(wide, 0);
        assert_eq!((c.width(), c.height()), (wide, 0));
    }
    assert!(can_allocate(0, u32::MAX));
    let tall = Canvas::new(0, u32::MAX);
    assert_eq!((tall.width(), tall.height()), (0, u32::MAX));
    assert!(Canvas::from_bytes(0, u32::MAX, Vec::new()).is_some());
}

#[test]
fn can_allocate_tells_small_from_huge() {
    assert!(can_allocate(1080, 1920));
    assert!(can_allocate(0, u32::MAX));
    assert!(!can_allocate(u32::MAX, u32::MAX));
}
