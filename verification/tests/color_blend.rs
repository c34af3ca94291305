use uno_no_mercy_video::color::Color;
use uno_no_mercy_video::fixed::Fixed;

#[test]
fn transparent_source_leaves_destination() {
    let dest = Color::rgba(12, 200, 99, 77);
    let src = Color::rgba(255, 1, 2, 0);
    assert_eq!(Color::blend_over(src, dest), dest);
    let mut a: u16 = 1;
    while a <= 255 {
        let dest = Color::rgba(255, 0, 131, a as u8);
        assert_eq!(Color::blend_over(src, dest), dest);
        a += 1;
    }
}

#[test]
fn opaque_source_replaces_destination() {
    let src = Color::rgba(1, 2, 3, 255);
    assert_eq!(Color::blend_over(src, Color::rgba(200, 100, 50, 255)), src);
    assert_eq!(Color::blend_over(src, Color::rgba(200, 100, 50, 0)), src);
    assert_eq!(Color::blend_over(src, Color::rgba(9, 9, 9, 128)), src);
}

#[test]
fn two_transparent_colors_blend_to_transparent_black() {
    let out = Color::blend_over(Color::rgba(5, 6, 7, 0), Color::rgba(8, 9, 10, 0));
    assert_eq!(out, Color::rgba(0, 0, 0, 0));
    assert_eq!(out, Color::transparent());
}

#[test]
fn half_transparent_red_over_opaque_blue() {
    let out = Color::blend_over(Color::rgba(255, 0, 0, 128), Color::rgba(0, 0, 255, 255));
    assert_eq!(out, Color::rgba(128, 0, 127, 255));
}

#[test]
fn two_translucent_colors() {
    let out = Color::blend_over(Color::rgba(10, 20, 30, 100), Color::rgba(200, 100, 50, 60));
    assert_eq!(out, Color::rgba(60, 41, 35, 136));
}

#[test]
fn paint_over_skips_a_transparent_source() {
    let dest = Color::rgba(8, 9, 10, 0);
    assert_eq!(Color::paint_over(Color::rgba(5, 6, 7, 0), dest), dest);
    assert_eq!(
        Color::paint_over(Color::rgba(255, 0, 0, 128), Color::rgba(0, 0, 255, 255)),
        Color::rgba(128, 0, 127, 255)
    );
}

#[test]
fn additive_blend_adds_weighted_channels() {
    let out = Color::blend_additive(Color::rgba(100, 100, 100, 255), Color::rgba(255, 200, 0, 128));
    assert_eq!(out, Color::rgba(228, 200, 100, 255));
}

#[test]
fn additive_blend_caps_at_white() {
    let out = Color::blend_additive(Color::rgba(250, 250, 250, 255), Color::rgba(255, 255, 255, 255));
    assert_eq!(out, Color::rgba(255, 255, 255, 255));
}

#[test]
fn additive_blend_alpha_is_at_least_the_base_alpha() {
    let out = Color::blend_additive(Color::rgba(0, 0, 0, 0), Color::rgba(255, 255, 220, 100));
    assert_eq!(out, Color::rgba(100, 100, 86, 50));
    let out = Color::blend_additive(Color::rgba(0, 0, 0, 200), Color::rgba(255, 255, 220, 100));
    assert_eq!(out.a, 200);
}

#[test]
fn additive_blend_of_nothing_changes_nothing() {
    let base = Color::rgba(1, 2, 3, 4);
    assert_eq!(Color::blend_additive(base, Color::rgba(255, 255, 255, 0)), base);
}

#[test]
fn lerp_color_endpoints() {
    let a = Color::rgba(10, 20, 30, 40);
    let b = Color::rgba(110, 220, 130, 240);
    assert_eq!(Color::lerp_color(a, b, Fixed::zero()), a);
    assert_eq!(Color::lerp_color(a, b, Fixed::one()), b);
    assert_eq!(Color::lerp_color(b, a, Fixed::zero()), b);
    assert_eq!(Color::lerp_color(b, a, Fixed::one()), a);
}

#[test]
fn lerp_color_is_clamped() {
    let a = Color::rgba(10, 20, 30, 40);
    let b = Color::rgba(110, 220, 130, 240);
    assert_eq!(Color::lerp_color(a, b, Fixed::from_int(-3)), a);
    assert_eq!(Color::lerp_color(a, b, Fixed::from_int(7)), b);
}

#[test]
fn lerp_color_in_between() {
    let black = Color::rgba(0, 0, 0, 255);
    let white = Color::rgba(255, 255, 255, 255);
    assert_eq!(
        Color::lerp_color(black, white, Fixed::millionths(500_000)),
        Color::rgba(127, 127, 127, 255)
    );
    let a = Color::rgba(10, 20, 30, 40);
    let b = Color::rgba(110, 220, 130, 240);
    assert_eq!(Color::lerp_color(a, b, Fixed::millionths(250_000)), Color::rgba(35, 70, 55, 90));
    assert_eq!(Color::lerp_color(b, a, Fixed::millionths(750_000)), Color::rgba(35, 70, 55, 90));
}

#[test]
fn with_alpha_keeps_the_channels() {
    assert_eq!(Color::rgba(1, 2, 3, 4).with_alpha(200), Color::rgba(1, 2, 3, 200));
}

#[test]
fn faded_blend_at_full_strength_is_source_over() {
    let pairs = [
        (Color::rgba(255, 0, 0, 128), Color::rgba(0, 0, 255, 255)),
        (Color::rgba(10, 20, 30, 100), Color::rgba(200, 100, 50, 60)),
        (Color::rgba(1, 2, 3, 255), Color::rgba(9, 9, 9, 0)),
        (Color::rgba(1, 2, 3, 0), Color::rgba(9, 9, 9, 0)),
        (Color::rgba(1, 2, 3, 1), Color::rgba(9, 9, 9, 1)),
    ];
    for (src, dest) in pairs {
        assert_eq!(Color::blend_faded(src, dest, Fixed::one()), Color::paint_over(src, dest));
        assert_eq!(Color::blend_faded(src, dest, Fixed::from_int(5)), Color::paint_over(src, dest));
        assert_eq!(Color::blend_faded(src, dest, Fixed::zero()), dest);
        assert_eq!(Color::blend_faded(src, dest, Fixed::from_int(-5)), dest);
    }
}

#[test]
fn faded_blend_in_between() {
    let red = Color::rgba(255, 0, 0, 255);
    let blue = Color::rgba(0, 0, 255, 255);
    assert_eq!(Color::blend_faded(red, blue, Fixed::millionths(500_000)), Color::rgba(127, 0, 127, 255));
    assert_eq!(Color::blend_faded(red, blue, Fixed::millionths(250_000)), Color::rgba(63, 0, 191, 255));
    assert_eq!(
        Color::blend_faded(red, Color::transparent(), Fixed::millionths(500_000)),
        Color::rgba(255, 0, 0, 127)
    );
    assert_eq!(Color::blend_faded(red, blue, Fixed::millionths(1)), Color::rgba(0, 0, 254, 255));
}
