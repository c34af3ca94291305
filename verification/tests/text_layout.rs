use uno_no_mercy_video::canvas::Canvas;
use uno_no_mercy_video::color::Color;
use uno_no_mercy_video::fixed::Fixed;
use uno_no_mercy_video::text::{
    centre_start, cover, draw_glyphs, outline_offset, visible_chars, AnimatedText, GlyphRun,
    LowerThird, TextRenderer, TextStyle, TitleCard,
};

const BLANK: Color = Color { r: 0, g: 0, b: 0, a: 0 };
const WHITE: Color = Color { r: 255, g: 255, b: 255, a: 255 };
const BLACK: Color = Color { r: 0, g: 0, b: 0, a: 255 };
const RED: Color = Color { r: 255, g: 0, b: 0, a: 255 };

fn block(width: u32, height: u32) -> GlyphRun {
    GlyphRun {
        mask: Canvas::filled(width, height, WHITE),
        left: 0,
        top: 0,
        advance: Fixed::from_int(width as i64),
        line_height: Fixed::from_int(height as i64),
    }
}

#[test]
fn style_presets() {
    let s = TextStyle::default();
    assert_eq!(s.color, WHITE);
    assert_eq!(s.outline_color, Some(BLACK));
    assert_eq!(s.outline_width, 3);
    assert!(s.shadow);
    assert_eq!(s.shadow_offset, (4, 4));
    assert_eq!(s.shadow_color, Color::rgba(0, 0, 0, 180));
    assert_eq!(s.padding(), 7);
    let s = TextStyle::white_with_black_outline();
    assert_eq!((s.color, s.outline_width, s.shadow_offset), (WHITE, 3, (4, 4)));
    let s = TextStyle::red_bold();
    assert_eq!(s.color, Color::rgba(255, 50, 50, 255));
    assert_eq!(s.outline_color, Some(WHITE));
    assert_eq!((s.outline_width, s.shadow, s.shadow_offset), (4, true, (5, 5)));
    assert_eq!(s.shadow_color, Color::rgba(0, 0, 0, 200));
    assert_eq!(s.padding(), 9);
    let s = TextStyle::yellow_impact();
    assert_eq!(s.color, Color::rgba(255, 230, 50, 255));
    assert_eq!((s.outline_width, s.shadow_offset), (5, (6, 6)));
    assert_eq!(s.shadow_color, Color::rgba(0, 0, 0, 220));
    assert_eq!(s.padding(), 11);
    let s = TextStyle::blue_clean();
    assert_eq!(s.color, Color::rgba(100, 180, 255, 255));
    assert_eq!((s.outline_width, s.shadow, s.shadow_offset), (3, false, (0, 0)));
    assert_eq!(s.padding(), 3);
    let s = TextStyle::plain(RED);
    assert_eq!((s.color, s.outline_color, s.outline_width, s.shadow), (RED, None, 0, false));
    assert_eq!(s.padding(), 0);
}

#[test]
fn padding_takes_the_longer_reach_of_the_shadow() {
    let mut s = TextStyle::plain(RED);
    s.outline_width = 2;
    s.shadow_offset = (-9, 4);
    assert_eq!(s.padding(), 11);
    s.shadow_offset = (3, i32::MIN);
    assert_eq!(s.padding(), 2 + 2_147_483_648);
    s.shadow_offset = (-9, 4);
    assert_eq!(s.side(20), 52);
}

#[test]
fn glyphs_cover_by_their_mask() {
    assert_eq!(cover(Color::rgba(10, 20, 30, 40), RED, 0), Color::rgba(10, 20, 30, 40));
    assert_eq!(cover(Color::rgba(10, 20, 30, 40), RED, 255), RED);
    assert_eq!(cover(Color::rgba(0, 0, 0, 0), Color::rgba(255, 255, 255, 255), 128), Color::rgba(128, 128, 128, 128));
    assert_eq!(cover(Color::rgba(200, 100, 0, 255), Color::rgba(0, 0, 0, 80), 255), Color::rgba(0, 0, 0, 80));
    let mut mask = Canvas::new(3, 1);
    mask.put_pixel(0, 0, Color::rgba(9, 9, 9, 255));
    mask.put_pixel(1, 0, Color::rgba(9, 9, 9, 51));
    let mut img = Canvas::filled(5, 3, Color::rgba(0, 0, 100, 255));
    draw_glyphs(&mut img, &mask, 1, 1, Color::rgba(250, 0, 0, 255));
    assert_eq!(img.get_pixel(1, 1), Color::rgba(250, 0, 0, 255));
    assert_eq!(img.get_pixel(2, 1), Color::rgba(50, 0, 80, 255));
    assert_eq!(img.get_pixel(3, 1), Color::rgba(0, 0, 100, 255));
    assert_eq!(img.get_pixel(0, 1), Color::rgba(0, 0, 100, 255));
    assert_eq!(img.get_pixel(1, 0), Color::rgba(0, 0, 100, 255));
    draw_glyphs(&mut img, &mask, i64::MIN, i64::MAX, RED);
    draw_glyphs(&mut img, &mask, -2, 2, RED);
    assert_eq!(img.get_pixel(0, 2), Color::rgba(0, 0, 100, 255));
}

#[test]
fn plain_text_image() {
    let run = block(20, 10);
    let img = TextRenderer::new().render(&run, &TextStyle::plain(RED));
    assert_eq!((img.width(), img.height()), (30, 20));
    for y in 0..20 {
        for x in 0..30 {
            let want = if x < 20 && y < 10 { RED } else { BLANK };
            assert_eq!(img.get_pixel(x, y), want, "at {} {}", x, y);
        }
    }
}

#[test]
fn glyphs_may_reach_left_of_and_above_their_origin() {
    let mut mask = Canvas::new(6, 5);
    for y in 0..5 {
        for x in 0..6 {
            mask.put_pixel(x, y, WHITE);
        }
    }
    let run = GlyphRun {
        mask,
        left: 2,
        top: 1,
        advance: Fixed::from_int(4),
        line_height: Fixed::from_int(4),
    };
    let style = TextStyle::plain(RED);
    let img = TextRenderer::new().render(&run, &style);
    assert_eq!((img.width(), img.height()), (14, 14));
    assert_eq!(img.get_pixel(0, 0), RED);
    assert_eq!(img.get_pixel(3, 3), RED);
    assert_eq!(img.get_pixel(4, 3), BLANK);
    assert_eq!(img.get_pixel(3, 4), BLANK);
    let mut dest = Canvas::new(20, 20);
    TextRenderer::new().stamp(&mut dest, &run, &TextStyle::default(), 0, 0);
    assert_eq!(dest.get_pixel(5, 6), WHITE);
    assert_eq!(dest.get_pixel(10, 10), WHITE);
    assert_eq!(dest.get_pixel(11, 10), BLACK);
}

#[test]
fn outlined_text_image() {
    let run = block(20, 10);
    let img = TextRenderer::new().render(&run, &TextStyle::default());
    assert_eq!((img.width(), img.height()), (44, 34));
    assert_eq!(img.get_pixel(7, 7), WHITE);
    assert_eq!(img.get_pixel(26, 16), WHITE);
    assert_eq!(img.get_pixel(6, 10), BLACK);
    assert_eq!(img.get_pixel(4, 4), BLACK);
    assert_eq!(img.get_pixel(29, 19), BLACK);
    assert_eq!(img.get_pixel(3, 10), BLANK);
    assert_eq!(img.get_pixel(30, 20), Color::rgba(0, 0, 0, 180));
    assert_eq!(img.get_pixel(30, 10), BLANK);
    assert_eq!(img.get_pixel(29, 20), Color::rgba(0, 0, 0, 180));
    assert_eq!(img.get_pixel(31, 21), BLANK);
    assert_eq!(img.get_pixel(43, 33), BLANK);
}

#[test]
fn outline_offsets_go_round_the_pixel() {
    let got: Vec<(i64, i64)> = (0..8).map(outline_offset).collect();
    assert_eq!(got, vec![(-1, -1), (-1, 0), (-1, 1), (0, -1), (0, 1), (1, -1), (1, 0), (1, 1)]);
}

#[test]
fn text_of_no_glyphs_is_blank() {
    let run = GlyphRun::empty();
    let img = TextRenderer::new().render(&run, &TextStyle::yellow_impact());
    assert_eq!((img.width(), img.height()), (32, 32));
    assert!(img.into_bytes().iter().all(|&v| v == 0));
}

#[test]
fn text_dimensions_round_up() {
    let run = GlyphRun {
        mask: Canvas::new(0, 0),
        left: 0,
        top: 0,
        advance: Fixed::millionths(20_000_001),
        line_height: Fixed::millionths(9_500_000),
    };
    assert_eq!(TextRenderer::new().text_dimensions(&run), (21, 10));
    assert_eq!(run.text_width(), 21);
    assert_eq!(run.text_height(), 10);
    let odd = GlyphRun {
        mask: Canvas::new(0, 0),
        left: 0,
        top: 0,
        advance: Fixed::from_int(-4),
        line_height: Fixed::zero(),
    };
    assert_eq!(TextRenderer::new().text_dimensions(&odd), (0, 0));
}

#[test]
fn centred_text() {
    let run = block(20, 10);
    let img = TextRenderer::new().render_centered(&run, &TextStyle::plain(RED), 100, 50);
    assert_eq!((img.width(), img.height()), (100, 50));
    assert_eq!(img.get_pixel(35, 15), RED);
    assert_eq!(img.get_pixel(54, 24), RED);
    assert_eq!(img.get_pixel(34, 15), BLANK);
    assert_eq!(img.get_pixel(55, 24), BLANK);
    let tight = TextRenderer::new().render_centered(&run, &TextStyle::plain(RED), 10, 5);
    assert_eq!((tight.width(), tight.height()), (10, 5));
    assert_eq!(tight.get_pixel(0, 0), RED);
    assert_eq!(tight.get_pixel(9, 4), RED);
    assert_eq!(centre_start(100, 30), 35);
    assert_eq!(centre_start(10, 30), 0);
}

#[test]
fn stamp_returns_the_extent_of_the_text_image() {
    let run = block(20, 10);
    let mut img = Canvas::filled(60, 40, BLACK);
    let extent = TextRenderer::new().stamp(&mut img, &run, &TextStyle::plain(RED), 5, -3);
    assert_eq!(extent, (30, 20));
    assert_eq!(img.get_pixel(5, 0), RED);
    assert_eq!(img.get_pixel(24, 6), RED);
    assert_eq!(img.get_pixel(25, 6), BLACK);
    assert_eq!(img.get_pixel(5, 7), BLACK);
}

#[test]
fn text_composite_blends() {
    let mut dest = Canvas::filled(2, 2, Color::rgba(0, 0, 255, 255));
    let src = Canvas::filled(2, 2, Color::rgba(255, 0, 0, 128));
    TextRenderer::composite(&mut dest, &src, 1, 0);
    assert_eq!(dest.get_pixel(1, 0), Color::rgba(128, 0, 127, 255));
    assert_eq!(dest.get_pixel(0, 0), Color::rgba(0, 0, 255, 255));
}

#[test]
fn typewriter_shows_a_growing_prefix() {
    assert_eq!(AnimatedText::typewriter_progress("HELLO", Fixed::zero()), "");
    assert_eq!(AnimatedText::typewriter_progress("HELLO", Fixed::millionths(1)), "H");
    assert_eq!(AnimatedText::typewriter_progress("HELLO", Fixed::millionths(500_000)), "HEL");
    assert_eq!(AnimatedText::typewriter_progress("HELLO", Fixed::millionths(800_000)), "HELL");
    assert_eq!(AnimatedText::typewriter_progress("HELLO", Fixed::one()), "HELLO");
    assert_eq!(AnimatedText::typewriter_progress("HELLO", Fixed::from_int(5)), "HELLO");
    assert_eq!(AnimatedText::typewriter_progress("HELLO", Fixed::from_int(-5)), "");
    assert_eq!(AnimatedText::typewriter_progress("", Fixed::one()), "");
    assert_eq!(AnimatedText::typewriter_progress("h\u{e9}llo w\u{f6}rld", Fixed::millionths(150_000)), "h\u{e9}");
    assert_eq!(AnimatedText::typewriter_progress("h\u{e9}llo", Fixed::millionths(500_000)), "h\u{e9}l");
    assert_eq!(AnimatedText::typewriter_progress("h\u{e9}llo", Fixed::millionths(500_000)).len(), 4);
    assert_eq!(visible_chars(5, Fixed::millionths(500_000)), 3);
    assert_eq!(visible_chars(usize::MAX, Fixed::zero()), 0);
    assert!(visible_chars(usize::MAX, Fixed::one()) <= usize::MAX);
    assert_eq!(visible_chars(0, Fixed::one()), 0);
}

#[test]
fn shaking_and_waving_text() {
    assert_eq!(AnimatedText::shake_offset(Fixed::zero(), Fixed::from_int(10)), (0, 10));
    assert_eq!(AnimatedText::shake_offset(Fixed::one(), Fixed::zero()), (0, 0));
    assert_eq!(AnimatedText::shake_offset(Fixed::millionths(31_416), Fixed::from_int(10)), (10, 0));
    assert_eq!(AnimatedText::wave_offset(0, Fixed::zero(), Fixed::from_int(10), Fixed::one()), 0);
    assert_eq!(AnimatedText::wave_offset(3, Fixed::zero(), Fixed::from_int(10), Fixed::one()), 9);
    assert_eq!(AnimatedText::wave_offset(0, Fixed::millionths(1_570_796), Fixed::from_int(10), Fixed::one()), 10);
    assert_eq!(AnimatedText::wave_offset(0, Fixed::millionths(4_712_389), Fixed::from_int(10), Fixed::one()), -10);
}

#[test]
fn title_card_with_and_without_subtitle() {
    let title = block(40, 12);
    let sub = block(30, 8);
    assert_eq!(TitleCard::title_size(1080, 1920).raw, 129_600_000);
    assert_eq!(TitleCard::title_size(1080, 500).raw, 40_000_000);
    assert_eq!(TitleCard::subtitle_size(1080, 1920).raw, 64_800_000);
    assert_eq!(TitleCard::title_row(200, true), 70);
    assert_eq!(TitleCard::title_row(200, false), 90);
    let img = TitleCard::render(&title, None, 120, 200);
    assert_eq!((img.width(), img.height()), (120, 200));
    assert_eq!(img.get_pixel(0, 0), Color::rgba(20, 10, 10, 255));
    assert_eq!(img.get_pixel(119, 100), Color::rgba(35, 17, 17, 255));
    assert_eq!(img.get_pixel(0, 199), Color::rgba(49, 24, 24, 255));
    assert_eq!(img.get_pixel(60, 105), Color::rgba(255, 50, 50, 255));
    assert_eq!(img.get_pixel(60, 85), Color::rgba(32, 16, 16, 255));
    let both = TitleCard::render(&title, Some(&sub), 120, 200);
    assert_eq!(both.get_pixel(60, 85), Color::rgba(255, 50, 50, 255));
    assert_eq!(both.get_pixel(60, 140), Color::rgba(255, 255, 255, 255));
    assert_eq!(both.get_pixel(60, 180), Color::rgba(47, 23, 23, 255));
}

#[test]
fn lower_third_bar() {
    let run = block(20, 10);
    assert_eq!(LowerThird::text_size(1080, 100).raw, 43_200_000);
    assert_eq!(LowerThird::text_size(1080, 60).raw, 30_000_000);
    let img = LowerThird::render(&run, 200, 40);
    assert_eq!((img.width(), img.height()), (200, 40));
    assert_eq!(img.get_pixel(0, 0), Color::rgba(220, 50, 50, 255));
    assert_eq!(img.get_pixel(199, 3), Color::rgba(220, 50, 50, 255));
    assert_eq!(img.get_pixel(0, 4), Color::rgba(20, 20, 20, 200));
    assert_eq!(img.get_pixel(199, 39), Color::rgba(20, 20, 20, 200));
    assert_eq!(img.get_pixel(85, 10), Color::rgba(255, 255, 255, 255));
    assert_eq!(img.get_pixel(104, 19), Color::rgba(255, 255, 255, 255));
    assert_eq!(img.get_pixel(105, 19), Color::rgba(20, 20, 20, 200));
    let narrow = LowerThird::render(&run, 0, 40);
    assert_eq!((narrow.width(), narrow.height()), (0, 40));
}
