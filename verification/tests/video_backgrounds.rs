use uno_no_mercy_video::canvas::Canvas;
use uno_no_mercy_video::color::Color;
use uno_no_mercy_video::fixed::Fixed;
use uno_no_mercy_video::shapes::SoftCircle;
use uno_no_mercy_video::video::{
    centre_offset, game_color, near_one, scaled_side, Backgrounds, FrameComposer, GlitchLine,
};

const RED: Color = Color { r: 255, g: 0, b: 0, a: 255 };
const BLUE: Color = Color { r: 0, g: 0, b: 255, a: 255 };

fn fx(raw: i64) -> Fixed {
    Fixed::millionths(raw)
}

fn all_opaque(img: &Canvas) -> bool {
    let bytes = img.duplicate().into_bytes();
    bytes.chunks(4).all(|p| p[3] == 255)
}

#[test]
fn frames_of_one_color() {
    let composer = FrameComposer::new(8, 6);
    let frame = composer.create_frame(BLUE);
    assert_eq!((frame.width(), frame.height()), (8, 6));
    for y in 0..6 {
        for x in 0..8 {
            assert_eq!(frame.get_pixel(x, y), BLUE);
        }
    }
    let empty = FrameComposer::new(0, 0).create_frame(BLUE);
    assert_eq!((empty.width(), empty.height()), (0, 0));
}

#[test]
fn frames_with_a_gradient() {
    let composer = FrameComposer::new(3, 4);
    let frame = composer.create_gradient_frame(Color::rgba(0, 0, 0, 255), Color::rgba(200, 100, 40, 255));
    assert_eq!(frame.get_pixel(0, 0), Color::rgba(0, 0, 0, 255));
    assert_eq!(frame.get_pixel(2, 2), Color::rgba(100, 50, 20, 255));
    assert_eq!(frame.get_pixel(1, 3), Color::rgba(150, 75, 30, 255));
    assert_eq!(
        FrameComposer::lerp_color(BLUE, RED, fx(500_000)),
        Color::rgba(127, 0, 127, 255)
    );
}

#[test]
fn composer_places_layers() {
    let composer = FrameComposer::new(10, 10);
    let mut frame = composer.create_frame(BLUE);
    let layer = Canvas::filled(4, 2, RED);
    composer.composite_centered(&mut frame, &layer);
    assert_eq!(frame.get_pixel(3, 4), RED);
    assert_eq!(frame.get_pixel(6, 5), RED);
    assert_eq!(frame.get_pixel(2, 4), BLUE);
    assert_eq!(frame.get_pixel(7, 5), BLUE);
    assert_eq!(frame.get_pixel(3, 3), BLUE);
    let mut frame = composer.create_frame(BLUE);
    composer.composite_relative(&mut frame, &layer, fx(500_000), fx(200_000));
    assert_eq!(frame.get_pixel(3, 1), RED);
    assert_eq!(frame.get_pixel(6, 2), RED);
    assert_eq!(frame.get_pixel(3, 0), BLUE);
    assert_eq!(frame.get_pixel(3, 3), BLUE);
    let mut frame = composer.create_frame(BLUE);
    composer.composite(&mut frame, &layer, 8, 9);
    assert_eq!(frame.get_pixel(9, 9), RED);
    assert_eq!(frame.get_pixel(7, 9), BLUE);
    let mut frame = composer.create_frame(BLUE);
    composer.composite_with_alpha(&mut frame, &layer, 0, 0, fx(500_000));
    assert_eq!(frame.get_pixel(0, 0), Color::rgba(127, 0, 127, 255));
    assert_eq!(centre_offset(10, 4), 3);
    assert_eq!(centre_offset(4, 10), -3);
    assert_eq!(centre_offset(4, 9), -2);
    assert_eq!(FrameComposer::relative_start(10, 4, fx(500_000)), 3);
}

#[test]
fn oversized_layers_are_centred_too() {
    let composer = FrameComposer::new(4, 4);
    let mut frame = composer.create_frame(BLUE);
    let mut layer = Canvas::filled(10, 10, RED);
    layer.put_pixel(3, 3, Color::rgba(0, 255, 0, 255));
    composer.composite_centered(&mut frame, &layer);
    assert_eq!(frame.get_pixel(0, 0), Color::rgba(0, 255, 0, 255));
    assert_eq!(frame.get_pixel(1, 0), RED);
    assert_eq!(frame.get_pixel(3, 3), RED);
}

#[test]
fn scaling_images() {
    let img = Canvas::filled(150, 220, RED);
    let small = FrameComposer::scale_image(&img, fx(800_000));
    assert_eq!((small.width(), small.height()), (120, 176));
    assert_eq!(small.get_pixel(60, 88), RED);
    let large = FrameComposer::scale_image(&img, fx(1_400_000));
    assert_eq!((large.width(), large.height()), (210, 308));
    let same = FrameComposer::scale_image(&img, fx(1_000_900));
    assert_eq!((same.width(), same.height()), (150, 220));
    let vanishing = FrameComposer::scale_image(&img, fx(1));
    assert_eq!((vanishing.width(), vanishing.height()), (1, 1));
    let negative = FrameComposer::scale_image(&img, Fixed::from_int(-2));
    assert_eq!((negative.width(), negative.height()), (1, 1));
    assert_eq!(scaled_side(150, fx(800_000)), 120);
    assert_eq!(scaled_side(3, fx(500_000)), 2);
    assert_eq!(scaled_side(0, fx(500_000)), 1);
    assert!(near_one(fx(999_001)));
    assert!(!near_one(fx(999_000)));
    assert!(!near_one(fx(1_001_000)));
}

#[test]
fn scaling_by_nearly_one_copies() {
    let mut img = Canvas::filled(5, 5, RED);
    img.put_pixel(2, 2, BLUE);
    let same = FrameComposer::scale_image(&img, fx(1_000_500));
    assert_eq!(same.into_bytes(), img.into_bytes());
}

#[test]
fn cropping_to_fit() {
    let img = Canvas::filled(100, 50, RED);
    let same = FrameComposer::crop_to_fit(&img, 100, 50);
    assert_eq!((same.width(), same.height()), (100, 50));
    let same = FrameComposer::crop_to_fit(&img, 500, 500);
    assert_eq!((same.width(), same.height()), (100, 50));
    let half = FrameComposer::crop_to_fit(&img, 50, 50);
    assert_eq!((half.width(), half.height()), (50, 25));
    let tall = FrameComposer::crop_to_fit(&img, 200, 10);
    assert_eq!((tall.width(), tall.height()), (20, 10));
    assert_eq!(FrameComposer::fit_scale(100, 50, 50, 50).raw, 500_000);
    assert_eq!(FrameComposer::fit_scale(100, 50, 200, 10).raw, 200_000);
}

#[test]
fn backgrounds_are_opaque() {
    let t = fx(2_500_000);
    let images = [
        Backgrounds::uno_theme(40, 60, t),
        Backgrounds::spotlight(40, 60, fx(500_000), fx(400_000), fx(900_000)),
        Backgrounds::chaos(40, 60, t, 42),
        Backgrounds::solid_with_vignette(40, 60, Color::rgba(25, 20, 35, 255), fx(500_000)),
        Backgrounds::epic_reveal(40, 60, fx(500_000), RED, BLUE),
        Backgrounds::dramatic_dark(40, 60, t),
    ];
    for img in &images {
        assert_eq!((img.width(), img.height()), (40, 60));
        assert!(all_opaque(img));
    }
}

#[test]
fn backgrounds_of_no_extent() {
    let t = fx(2_500_000);
    for (w, h) in [(0u32, 0u32), (0, 5), (5, 0), (1, 1)] {
        assert_eq!(Backgrounds::uno_theme(w, h, t).width(), w);
        assert_eq!(Backgrounds::spotlight(w, h, t, t, t).height(), h);
        assert_eq!(Backgrounds::chaos(w, h, t, 1).width(), w);
        assert_eq!(Backgrounds::solid_with_vignette(w, h, RED, t).height(), h);
        assert_eq!(Backgrounds::epic_reveal(w, h, t, RED, BLUE).width(), w);
        assert_eq!(Backgrounds::dramatic_dark(w, h, t).height(), h);
    }
}

#[test]
fn backgrounds_are_reproducible() {
    let t = fx(7_770_000);
    assert_eq!(Backgrounds::uno_theme(30, 40, t).into_bytes(), Backgrounds::uno_theme(30, 40, t).into_bytes());
    assert_eq!(Backgrounds::chaos(30, 40, t, 42).into_bytes(), Backgrounds::chaos(30, 40, t, 42).into_bytes());
    assert_eq!(Backgrounds::dramatic_dark(30, 40, t).into_bytes(), Backgrounds::dramatic_dark(30, 40, t).into_bytes());
    assert_ne!(Backgrounds::chaos(30, 40, t, 42).into_bytes(), Backgrounds::chaos(30, 40, t, 43).into_bytes());
    assert_ne!(Backgrounds::chaos(30, 40, t, 42).into_bytes(), Backgrounds::chaos(30, 40, fx(9_000_000), 42).into_bytes());
    assert_ne!(Backgrounds::uno_theme(30, 40, t).into_bytes(), Backgrounds::uno_theme(30, 40, fx(1_000_000)).into_bytes());
}

#[test]
fn themed_background_is_brightest_above_the_middle() {
    let img = Backgrounds::uno_theme(200, 300, Fixed::zero());
    let centre = img.get_pixel(100, 120);
    let corner = img.get_pixel(199, 299);
    assert!(centre.b >= 70 && centre.b > corner.b + 20, "{:?} {:?}", centre, corner);
    assert!(corner.r <= 40 && corner.g <= 40 && corner.b <= 60, "{:?}", corner);
}

#[test]
fn spotlight_is_brightest_at_the_spot() {
    let img = Backgrounds::spotlight(200, 200, fx(500_000), fx(500_000), Fixed::one());
    assert_eq!(img.get_pixel(100, 100), Color::rgba(95, 62, 50, 255));
    let far = img.get_pixel(100, 190);
    assert!(far.r < 95 && far.r >= 15, "{:?}", far);
    let dark = Backgrounds::spotlight(200, 200, fx(500_000), fx(500_000), Fixed::zero());
    assert_eq!(dark.get_pixel(100, 100), Color::rgba(15, 12, 20, 255));
    assert_eq!(dark.get_pixel(0, 100), Color::rgba(43, 26, 55, 255));
    assert_eq!(dark.get_pixel(25, 100), Color::rgba(29, 19, 37, 255));
    assert_eq!(dark.get_pixel(50, 100), Color::rgba(15, 12, 20, 255));
}

#[test]
fn rim_light_lifts_the_edges() {
    let mut img = Canvas::filled(200, 200, Color::rgba(100, 100, 100, 255));
    Backgrounds::add_rim_light(&mut img, Fixed::one());
    assert_eq!(img.get_pixel(0, 0), Color::rgba(140, 120, 150, 255));
    assert_eq!(img.get_pixel(100, 100), Color::rgba(100, 100, 100, 255));
    assert_eq!(img.get_pixel(100, 25), Color::rgba(120, 110, 125, 255));
}

#[test]
fn solid_background_keeps_its_color_in_the_middle() {
    let base = Color::rgba(100, 80, 140, 255);
    let img = Backgrounds::solid_with_vignette(100, 100, base, Fixed::one());
    let centre = img.get_pixel(50, 50);
    let corner = img.get_pixel(0, 0);
    assert!((centre.r as i32 - 100).abs() <= 3 && (centre.b as i32 - 140).abs() <= 4, "{:?}", centre);
    assert!(corner.r <= 26 && corner.r >= 24, "{:?}", corner);
    let flat = Backgrounds::solid_with_vignette(100, 100, base, Fixed::zero());
    let c = flat.get_pixel(0, 0);
    assert!((c.r as i32 - 100).abs() <= 2, "{:?}", c);
}

#[test]
fn reveal_wipes_from_the_middle() {
    let none = Backgrounds::epic_reveal(200, 200, Fixed::zero(), RED, BLUE);
    assert_eq!(none.get_pixel(0, 0), BLUE);
    assert_eq!(none.get_pixel(100, 60), BLUE);
    assert_eq!(none.get_pixel(100, 100), Color::rgba(100, 80, 255, 255));
    let full = Backgrounds::epic_reveal(200, 200, Fixed::one(), RED, BLUE);
    assert_eq!(full.get_pixel(100, 100), RED);
    assert_eq!(full.get_pixel(0, 100), RED);
    let half = Backgrounds::epic_reveal(200, 200, fx(500_000), RED, BLUE);
    assert_eq!(half.get_pixel(100, 100), RED);
    assert_eq!(half.get_pixel(0, 0), BLUE);
}

#[test]
fn dark_scene_is_lit_by_three_lights() {
    let img = Backgrounds::dramatic_dark(1000, 1000, Fixed::zero());
    assert_eq!(img.get_pixel(0, 0), Color::rgba(10, 8, 15, 255));
    assert_eq!(img.get_pixel(999, 999), Color::rgba(24, 17, 34, 255));
    let lit = img.get_pixel(300, 400);
    assert_eq!(lit, Color::rgba(67, 32, 38, 255));
}

#[test]
fn chaos_with_given_lines_and_bursts() {
    let lines = vec![GlitchLine { y: 2, height: 3, color: Color::rgba(255, 0, 0, 255) }];
    let bursts: Vec<SoftCircle> = Vec::new();
    let img = Backgrounds::chaos_with(10, 10, Fixed::zero(), &lines, &bursts);
    let base = Backgrounds::chaos_with(10, 10, Fixed::zero(), &Vec::new(), &bursts);
    for y in 0..10 {
        for x in 0..10 {
            let b = base.get_pixel(x, y);
            let got = img.get_pixel(x, y);
            if (2..5).contains(&y) {
                assert_eq!(got, Color::rgba(255, b.g, b.b, 255));
            } else {
                assert_eq!(got, b);
            }
        }
    }
    assert_eq!(base.get_pixel(0, 0), Color::rgba(32, 22, 40, 255));
    let burst = vec![SoftCircle {
        cx: Fixed::from_int(5),
        cy: Fixed::from_int(5),
        radius: Fixed::from_int(3),
        color: Color::rgba(0, 255, 0, 255),
    }];
    let lit = Backgrounds::chaos_with(10, 10, Fixed::zero(), &Vec::new(), &burst);
    assert_eq!(lit.get_pixel(5, 5).g, 255);
    assert_eq!(lit.get_pixel(9, 9), base.get_pixel(9, 9));
}

#[test]
fn chaos_seed_and_line_count() {
    assert_eq!(Backgrounds::frame_seed(42, Fixed::zero()), 42);
    assert_eq!(Backgrounds::frame_seed(42, fx(50_300_000)), 293);
    assert_eq!(Backgrounds::frame_seed(42, Fixed::from_int(-3)), 42);
    assert_eq!(Backgrounds::frame_seed(u64::MAX, Fixed::one()), 4);
    assert_eq!(Backgrounds::line_count(Fixed::zero()), 8);
    assert_eq!(Backgrounds::line_count(fx(400_000)), 8);
    assert_eq!(Backgrounds::line_count(fx(523_599)), 13);
    assert_eq!(Backgrounds::line_count(fx(523_268)), 13);
    assert_eq!(Backgrounds::line_count(fx(523_267)), 8);
    let mut t: i64 = 0;
    while t < 3_000_000 {
        let n = Backgrounds::line_count(fx(t));
        assert!(n == 8 || n == 13);
        t += 997;
    }
}

#[test]
fn game_colors_go_round() {
    assert_eq!(game_color(0, false, 35), Color::rgba(237, 28, 36, 35));
    assert_eq!(game_color(1, false, 35), Color::rgba(0, 114, 188, 35));
    assert_eq!(game_color(2, false, 120), Color::rgba(0, 166, 81, 120));
    assert_eq!(game_color(3, false, 120), Color::rgba(255, 237, 0, 120));
    assert_eq!(game_color(4, false, 120), Color::rgba(237, 28, 36, 120));
    assert_eq!(game_color(0, true, 60), Color::rgba(255, 100, 100, 60));
    assert_eq!(game_color(7, true, 60), Color::rgba(255, 255, 100, 60));
}

#[test]
fn floating_particles_add_light() {
    let mut img = Canvas::filled(100, 100, Color::rgba(0, 0, 0, 255));
    Backgrounds::add_floating_particles(&mut img, fx(1_000_000), 20);
    let bytes = img.duplicate().into_bytes();
    assert!(bytes.chunks(4).any(|p| p[0] > 0));
    assert!(bytes.chunks(4).all(|p| p[3] == 255 && p[0] == p[1] && p[1] == p[2]));
    let mut none = Canvas::filled(10, 10, BLUE);
    Backgrounds::add_floating_particles(&mut none, fx(1_000_000), 0);
    assert!(none.into_bytes().chunks(4).all(|p| p == [0, 0, 255, 255]));
}
