use uno_no_mercy_video::canvas::Canvas;
use uno_no_mercy_video::color::Color;
use uno_no_mercy_video::effects::{
    overlay_alpha, ColorUtils, Easing, Fade, Flash, Glow, Particles, PopIn, Pulse, ScreenShake,
    Slide, Zoom,
};
use uno_no_mercy_video::fixed::Fixed;

fn fx(raw: i64) -> Fixed {
    Fixed::millionths(raw)
}

const ZERO: i64 = 0;
const ONE: i64 = 1_000_000;

#[test]
fn easing_curves_start_at_zero_and_end_at_one() {
    let curves: [fn(Fixed) -> Fixed; 6] = [
        Easing::linear,
        Easing::ease_in,
        Easing::ease_out,
        Easing::ease_in_out,
        Easing::bounce,
        Easing::elastic,
    ];
    for f in curves {
        assert_eq!(f(fx(ZERO)).raw, ZERO);
        assert_eq!(f(fx(ONE)).raw, ONE);
        assert_eq!(f(fx(-5 * ONE)).raw, ZERO);
        assert_eq!(f(fx(5 * ONE)).raw, ONE);
    }
}

#[test]
fn quadratic_easing_values() {
    assert_eq!(Easing::linear(fx(300_000)).raw, 300_000);
    assert_eq!(Easing::ease_in(fx(500_000)).raw, 250_000);
    assert_eq!(Easing::ease_in(fx(300_000)).raw, 90_000);
    assert_eq!(Easing::ease_out(fx(500_000)).raw, 750_000);
    assert_eq!(Easing::ease_out(fx(300_000)).raw, 510_000);
    assert_eq!(Easing::ease_in_out(fx(250_000)).raw, 125_000);
    assert_eq!(Easing::ease_in_out(fx(500_000)).raw, 500_000);
    assert_eq!(Easing::ease_in_out(fx(750_000)).raw, 875_000);
}

#[test]
fn quadratic_easing_is_monotone() {
    let mut t: i64 = -100_000;
    let mut last_in: i64 = 0;
    let mut last_out: i64 = 0;
    let mut last_both: i64 = 0;
    while t <= 1_100_000 {
        let a = Easing::ease_in(fx(t)).raw;
        let b = Easing::ease_out(fx(t)).raw;
        let c = Easing::ease_in_out(fx(t)).raw;
        assert!(a >= last_in && b >= last_out && c >= last_both);
        assert!(0 <= a && a <= ONE && 0 <= b && b <= ONE && 0 <= c && c <= ONE);
        last_in = a;
        last_out = b;
        last_both = c;
        t += 1_337;
    }
}

#[test]
fn bounce_has_four_arcs() {
    assert_eq!(Easing::bounce(fx(200_000)).raw, 302_500);
    assert_eq!(Easing::bounce(fx(500_000)).raw, 765_625);
    assert_eq!(Easing::bounce(fx(363_636)).raw, 999_998);
    assert_eq!(Easing::bounce(fx(800_000)).raw, 940_000);
    assert_eq!(Easing::bounce(fx(950_000)).raw, 984_531);
    assert_eq!(Easing::bounce(fx(727_273)).raw, 999_999);
}

#[test]
fn elastic_is_a_damped_sine_kept_within_the_unit_interval() {
    assert_eq!(Easing::elastic(fx(100_000)).raw, 1_953);
    assert_eq!(Easing::elastic(fx(500_000)).raw, 0);
    assert_eq!(Easing::elastic(fx(700_000)).raw, 125_000);
    assert_eq!(Easing::elastic(fx(750_000)).raw, 88_374);
    assert_eq!(Easing::elastic(fx(900_000)).raw, 0);
    assert_eq!(Easing::elastic(fx(950_000)).raw, 353_500);
    assert_eq!(Easing::elastic(fx(975_000)).raw, 728_865);
    assert_eq!(Easing::elastic(fx(999_999)).raw, 999_993);
}

#[test]
fn every_easing_curve_stays_within_the_unit_interval() {
    let curves: [fn(Fixed) -> Fixed; 6] = [
        Easing::linear,
        Easing::ease_in,
        Easing::ease_out,
        Easing::ease_in_out,
        Easing::bounce,
        Easing::elastic,
    ];
    for f in curves {
        let mut t: i64 = -50_000;
        while t <= 1_050_000 {
            let r = f(fx(t)).raw;
            assert!(0 <= r && r <= ONE, "at {} the curve gives {}", t, r);
            t += 997;
        }
        for t in [i64::MIN, -1, 1, 999_999, 1_000_001, i64::MAX] {
            let r = f(fx(t)).raw;
            assert!(0 <= r && r <= ONE, "at {} the curve gives {}", t, r);
        }
    }
}

#[test]
fn screen_shake_offsets() {
    let shake = ScreenShake::new(Fixed::from_int(10), Fixed::from_int(10));
    assert_eq!(shake.get_offset(Fixed::zero()), (0, 10));
    let mut t: i64 = 0;
    while t < 5_000_000 {
        let (x, y) = shake.get_offset(fx(t));
        assert!(-10 <= x && x <= 10 && -10 <= y && y <= 10);
        t += 33_333;
    }
    let still = ScreenShake::new(Fixed::zero(), Fixed::from_int(10));
    assert_eq!(still.get_offset(fx(1_234_567)), (0, 0));
}

#[test]
fn zoom_runs_from_start_to_end() {
    let a = Fixed::from_int(2);
    let b = Fixed::from_int(4);
    assert_eq!(Zoom::calculate_scale(a, b, fx(ZERO), Easing::linear).raw, 2_000_000);
    assert_eq!(Zoom::calculate_scale(a, b, fx(ONE), Easing::ease_in).raw, 4_000_000);
    assert_eq!(Zoom::calculate_scale(a, b, fx(500_000), Easing::ease_in).raw, 2_500_000);
    assert_eq!(Zoom::calculate_scale(b, a, fx(500_000), Easing::ease_out).raw, 2_500_000);
    assert_eq!(Zoom::calculate_scale(a, b, fx(500_000), |t: Fixed| t.times(t).times(t)).raw, 2_250_000);
}

#[test]
fn pulse_swings_around_the_base() {
    let one = Fixed::one();
    assert_eq!(Pulse::get_scale(Fixed::zero(), one, fx(100_000), one).raw, 1_000_000);
    assert_eq!(Pulse::get_scale(fx(250_000), one, fx(100_000), one).raw, 1_100_000);
    assert_eq!(Pulse::get_scale(fx(750_000), one, fx(100_000), one).raw, 900_000);
}

#[test]
fn slides_run_between_their_ends() {
    assert_eq!(Slide::from_left(-100, 300, fx(ZERO), Easing::linear), -100);
    assert_eq!(Slide::from_left(-100, 300, fx(ONE), Easing::linear), 300);
    assert_eq!(Slide::from_left(-100, 300, fx(500_000), Easing::linear), 100);
    assert_eq!(Slide::from_left(-100, 300, fx(500_000), Easing::ease_out), 200);
    assert_eq!(Slide::from_top(10, -30, fx(250_000), Easing::linear), 0);
    assert_eq!(Slide::from_right(1080, 150, fx(ZERO), Easing::ease_out), 1080);
    assert_eq!(Slide::from_right(1080, 150, fx(ONE), Easing::ease_out), 465);
    assert_eq!(Slide::from_bottom(1920, 672, fx(ONE), Easing::ease_out), 624);
    assert_eq!(Slide::from_bottom(1920, 672, fx(500_000), Easing::ease_out), 948);
    assert_eq!(Slide::from_right(100, 301, fx(ONE), Easing::linear), -100);
}

#[test]
fn slides_take_extreme_positions() {
    assert_eq!(Slide::from_left(i32::MIN, i32::MAX, fx(ONE), Easing::linear), i32::MAX);
    assert_eq!(Slide::from_left(i32::MAX, i32::MIN, fx(ONE), Easing::linear), i32::MIN);
    assert_eq!(Slide::from_right(i32::MIN, i32::MAX, fx(ZERO), Easing::linear), i32::MIN);
    assert_eq!(Slide::along(0, 100, Fixed::from_int(2)), 200);
    assert_eq!(Slide::rest(1080, 150), 465);
}

#[test]
fn pop_in_starts_at_nothing_and_ends_at_full_size() {
    for k in [-3_000_000i64, 0, 500_000, 1_000_000, 1_200_000, 1_500_000, i64::MAX, i64::MIN] {
        assert_eq!(PopIn::get_scale(fx(ZERO), fx(k)).raw, 0);
        assert_eq!(PopIn::get_scale(fx(ONE), fx(k)).raw, ONE);
        assert_eq!(PopIn::get_scale(fx(-ONE), fx(k)).raw, 0);
        assert_eq!(PopIn::get_scale(fx(3 * ONE), fx(k)).raw, ONE);
    }
}

#[test]
fn pop_in_overshoots() {
    assert_eq!(PopIn::get_scale(fx(500_000), fx(1_200_000)).raw, 1_130_237);
    assert_eq!(PopIn::get_scale(fx(800_000), fx(1_200_000)).raw, 1_057_340);
    assert_eq!(PopIn::get_scale(fx(700_000), fx(ONE)).raw, 1_080_199);
    assert_eq!(PopIn::get_scale(fx(500_000), Fixed::zero()).raw, 875_000);
    let mut t: i64 = 1;
    while t < ONE {
        assert!(PopIn::get_scale(fx(t), Fixed::zero()).raw <= ONE);
        t += 7_919;
    }
}

#[test]
fn fade_to_black_runs_from_clear_to_opaque() {
    let clear = Fade::to_black(6, 4, Fixed::zero());
    let opaque = Fade::to_black(6, 4, Fixed::one());
    let half = Fade::to_black(6, 4, fx(500_000));
    assert_eq!(clear.width(), 6);
    assert_eq!(clear.height(), 4);
    for y in 0..4 {
        for x in 0..6 {
            assert_eq!(clear.get_pixel(x, y), Color::rgba(0, 0, 0, 0));
            assert_eq!(opaque.get_pixel(x, y), Color::rgba(0, 0, 0, 255));
            assert_eq!(half.get_pixel(x, y), Color::rgba(0, 0, 0, 127));
        }
    }
    assert_eq!(Fade::to_black(1, 1, Fixed::from_int(9)).get_pixel(0, 0).a, 255);
    assert_eq!(Fade::to_black(1, 1, Fixed::from_int(-9)).get_pixel(0, 0).a, 0);
}

#[test]
fn fade_from_black_runs_from_opaque_to_clear() {
    assert_eq!(Fade::from_black(3, 3, Fixed::zero()).get_pixel(1, 1), Color::rgba(0, 0, 0, 255));
    assert_eq!(Fade::from_black(3, 3, Fixed::one()).get_pixel(2, 2), Color::rgba(0, 0, 0, 0));
    assert_eq!(Fade::from_black(3, 3, fx(250_000)).get_pixel(0, 0), Color::rgba(0, 0, 0, 191));
}

#[test]
fn overlays_of_no_extent() {
    let a = Fade::to_black(0, 7, Fixed::one());
    assert_eq!((a.width(), a.height()), (0, 7));
    let b = Flash::white(5, 0, Fixed::one());
    assert_eq!((b.width(), b.height()), (5, 0));
}

#[test]
fn fade_apply_scales_alpha() {
    let mut img = Canvas::filled(2, 2, Color::rgba(10, 20, 30, 200));
    Fade::apply(&mut img, fx(500_000));
    assert_eq!(img.get_pixel(1, 1), Color::rgba(10, 20, 30, 99));
    Fade::apply(&mut img, Fixed::one());
    assert_eq!(img.get_pixel(1, 1), Color::rgba(10, 20, 30, 99));
    Fade::apply(&mut img, Fixed::zero());
    assert_eq!(img.get_pixel(0, 1), Color::rgba(10, 20, 30, 0));
}

#[test]
fn flash_overlays() {
    assert_eq!(Flash::white(2, 2, fx(700_000)).get_pixel(1, 0), Color::rgba(255, 255, 255, 178));
    let tint = Color::rgba(9, 8, 7, 100);
    assert_eq!(Flash::colored(2, 2, tint, fx(500_000)).get_pixel(0, 1), Color::rgba(9, 8, 7, 50));
    assert_eq!(Flash::colored(2, 2, tint, Fixed::one()).get_pixel(0, 1), tint);
    assert_eq!(overlay_alpha(fx(700_000), 255), 178);
}

#[test]
fn gradient_runs_from_top_to_bottom() {
    let top = Color::rgba(0, 0, 0, 255);
    let bottom = Color::rgba(200, 100, 40, 255);
    let img = ColorUtils::gradient(3, 4, top, bottom);
    assert_eq!(img.get_pixel(0, 0), top);
    assert_eq!(img.get_pixel(2, 0), top);
    assert_eq!(img.get_pixel(1, 1), Color::rgba(50, 25, 10, 255));
    assert_eq!(img.get_pixel(1, 2), Color::rgba(100, 50, 20, 255));
    assert_eq!(img.get_pixel(1, 3), Color::rgba(150, 75, 30, 255));
    assert_eq!(ColorUtils::lerp(top, bottom, fx(500_000)), Color::rgba(100, 50, 20, 255));
}

#[test]
fn vignette_darkens_the_corners() {
    let img = ColorUtils::vignette(40, 40, Fixed::one());
    assert_eq!(img.get_pixel(20, 20), Color::rgba(0, 0, 0, 0));
    assert_eq!(img.get_pixel(0, 0), Color::rgba(0, 0, 0, 255));
    let edge = img.get_pixel(0, 20);
    assert_eq!(edge, Color::rgba(0, 0, 0, 127));
    let strong = ColorUtils::vignette(40, 40, Fixed::from_int(4));
    assert_eq!(strong.get_pixel(0, 20).a, 255);
}

#[test]
fn glow_pads_the_image_and_keeps_it_on_top() {
    let mut img = Canvas::new(5, 5);
    img.put_pixel(2, 2, Color::rgba(0, 0, 255, 255));
    let out = Glow::apply(&img, Color::rgba(255, 100, 0, 255), 4, Fixed::one());
    assert_eq!(out.width(), 13);
    assert_eq!(out.height(), 13);
    assert_eq!(out.get_pixel(6, 6), Color::rgba(0, 0, 255, 255));
    let near = out.get_pixel(7, 6);
    let far = out.get_pixel(8, 6);
    assert!(near.r > far.r && far.r > 0, "{:?} {:?}", near, far);
    assert_eq!(out.get_pixel(9, 6), Color::rgba(0, 0, 0, 0));
    assert_eq!(out.get_pixel(10, 6), Color::rgba(0, 0, 0, 0));
    assert_eq!(out.get_pixel(0, 0), Color::rgba(0, 0, 0, 0));
    assert_eq!(near, Color::rgba(105, 40, 0, 31));
    assert_eq!(far, Color::rgba(21, 8, 0, 10));
}

#[test]
fn glow_ignores_faint_pixels() {
    let img = Canvas::filled(3, 3, Color::rgba(255, 255, 255, 128));
    let out = Glow::apply(&img, Color::rgba(255, 0, 0, 255), 3, Fixed::one());
    assert_eq!(out.get_pixel(0, 0), Color::rgba(0, 0, 0, 0));
    assert_eq!(out.get_pixel(2, 4), Color::rgba(0, 0, 0, 0));
    assert_eq!(out.get_pixel(4, 4), Color::rgba(255, 255, 255, 128));
}

#[test]
fn glow_of_no_radius_is_a_copy() {
    let img = Canvas::filled(3, 2, Color::rgba(1, 2, 3, 255));
    let out = Glow::apply(&img, Color::rgba(255, 0, 0, 255), 0, Fixed::one());
    assert_eq!((out.width(), out.height()), (3, 2));
    assert_eq!(out.into_bytes(), img.into_bytes());
}

#[test]
fn sparkles_are_reproducible() {
    let a = Particles::sparkles(64, 48, 15, fx(1_234_000), 42).into_bytes();
    let b = Particles::sparkles(64, 48, 15, fx(1_234_000), 42).into_bytes();
    assert_eq!(a, b);
    assert!(a.iter().any(|&v| v != 0));
    let c = Particles::sparkles(64, 48, 15, fx(1_234_000), 43).into_bytes();
    assert_ne!(a, c);
    let d = Particles::sparkles(64, 48, 15, fx(2_234_000), 42).into_bytes();
    assert_ne!(a, d);
}

#[test]
fn no_sparkles_leave_the_canvas_blank() {
    let img = Particles::sparkles(16, 16, 0, fx(1_000_000), 7);
    assert!(img.into_bytes().iter().all(|&v| v == 0));
}

#[test]
fn star_is_a_cross() {
    let mut img = Canvas::new(11, 11);
    Particles::draw_star(&mut img, Fixed::from_int(5), Fixed::from_int(5), Fixed::from_int(2), Color::rgba(255, 255, 255, 200));
    assert_eq!(img.get_pixel(5, 5), Color::rgba(255, 255, 255, 100));
    assert_eq!(img.get_pixel(4, 5), Color::rgba(100, 100, 100, 50));
    assert_eq!(img.get_pixel(6, 5), Color::rgba(100, 100, 100, 50));
    assert_eq!(img.get_pixel(5, 4), Color::rgba(100, 100, 100, 50));
    assert_eq!(img.get_pixel(5, 6), Color::rgba(100, 100, 100, 50));
    assert_eq!(img.get_pixel(3, 5), Color::rgba(0, 0, 0, 0));
    assert_eq!(img.get_pixel(4, 4), Color::rgba(0, 0, 0, 0));
    assert_eq!(img.get_pixel(0, 0), Color::rgba(0, 0, 0, 0));
}

#[test]
fn star_beyond_the_edge_piles_up_there() {
    let mut img = Canvas::new(5, 5);
    Particles::draw_star(&mut img, Fixed::from_int(-1), Fixed::from_int(2), Fixed::from_int(2), Color::rgba(255, 255, 255, 200));
    assert!(img.get_pixel(0, 2).a > 0);
    assert_eq!(img.get_pixel(3, 2), Color::rgba(0, 0, 0, 0));
    Particles::draw_star(&mut img, Fixed::from_int(900), Fixed::from_int(900), Fixed::from_int(3), Color::rgba(255, 255, 255, 200));
    Particles::draw_star(&mut img, Fixed::from_int(2), Fixed::from_int(2), Fixed::from_int(-3), Color::rgba(255, 255, 255, 200));
    assert_eq!(img.get_pixel(4, 4), Color::rgba(0, 0, 0, 0));
}

#[test]
fn energy_wave_is_a_ring() {
    let img = Particles::energy_wave(200, 200, Fixed::from_int(1), Color::rgba(255, 200, 100, 80));
    assert_eq!(img.get_pixel(100, 100), Color::rgba(0, 0, 0, 0));
    assert_eq!(img.get_pixel(0, 100), Color::rgba(255, 200, 100, 80));
    assert_eq!(img.get_pixel(100, 0), Color::rgba(255, 200, 100, 80));
    assert_eq!(img.get_pixel(15, 100), Color::rgba(255, 200, 100, 20));
    assert_eq!(img.get_pixel(30, 100), Color::rgba(0, 0, 0, 0));
    let start = Particles::energy_wave(200, 200, Fixed::from_int(2), Color::rgba(255, 200, 100, 80));
    assert_eq!(start.get_pixel(100, 100), Color::rgba(255, 200, 100, 80));
}
