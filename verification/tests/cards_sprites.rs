use uno_no_mercy_video::canvas::{can_allocate, Canvas};
use uno_no_mercy_video::cards::{
    decimal, Card, CardColor, CardFactory, CardGlyphs, CardRenderer, CardType, FlyingCard,
    PrintedCard, PrintedFlyingCard,
};
use uno_no_mercy_video::color::Color;
use uno_no_mercy_video::fixed::Fixed;
use uno_no_mercy_video::text::GlyphRun;

const BLANK: Color = Color { r: 0, g: 0, b: 0, a: 0 };
const WHITE: Color = Color { r: 255, g: 255, b: 255, a: 255 };

fn block(width: u32, height: u32) -> GlyphRun {
    GlyphRun {
        mask: Canvas::filled(width, height, WHITE),
        left: 0,
        top: 0,
        advance: Fixed::from_int(width as i64),
        line_height: Fixed::from_int(height as i64),
    }
}

#[test]
fn card_colors() {
    assert_eq!(CardColor::Red.to_rgba(), Color::rgba(237, 28, 36, 255));
    assert_eq!(CardColor::Blue.to_rgba(), Color::rgba(0, 114, 188, 255));
    assert_eq!(CardColor::Green.to_rgba(), Color::rgba(0, 166, 81, 255));
    assert_eq!(CardColor::Yellow.to_rgba(), Color::rgba(255, 237, 0, 255));
    assert_eq!(CardColor::Wild.to_rgba(), Color::rgba(35, 31, 32, 255));
    assert_eq!(CardColor::Red.to_dark(), Color::rgba(180, 20, 25, 255));
    assert_eq!(CardColor::Wild.to_dark(), Color::rgba(20, 18, 18, 255));
    assert_eq!(CardColor::Blue.to_light(), Color::rgba(80, 160, 230, 255));
    assert_eq!(CardColor::Yellow.to_light(), Color::rgba(255, 250, 100, 255));
}

#[test]
fn display_texts() {
    assert_eq!(CardType::Number(0).display_text(), "0");
    assert_eq!(CardType::Number(7).display_text(), "7");
    assert_eq!(CardType::Number(42).display_text(), "42");
    assert_eq!(CardType::Number(255).display_text(), "255");
    assert_eq!(CardType::DrawTwo.display_text(), "+2");
    assert_eq!(CardType::DrawFour.display_text(), "+4");
    assert_eq!(CardType::DrawSix.display_text(), "+6");
    assert_eq!(CardType::DrawTen.display_text(), "+10");
    assert_eq!(CardType::Skip.display_text(), "O/");
    assert_eq!(CardType::SkipEveryone.display_text(), "O//");
    assert_eq!(CardType::Reverse.display_text(), "<>");
    assert_eq!(CardType::ReverseDrawFour.display_text(), "<>4");
    assert_eq!(CardType::DiscardAll.display_text(), "ALL");
    assert_eq!(CardType::ColorRoulette.display_text(), "?");
}

#[test]
fn corner_texts() {
    assert_eq!(CardType::Number(3).corner_text(), "3");
    assert_eq!(CardType::Number(100).corner_text(), "100");
    assert_eq!(CardType::DrawTwo.corner_text(), "+2");
    assert_eq!(CardType::DrawFour.corner_text(), "+4");
    assert_eq!(CardType::DrawSix.corner_text(), "+6");
    assert_eq!(CardType::DrawTen.corner_text(), "+10");
    assert_eq!(CardType::Skip.corner_text(), "X");
    assert_eq!(CardType::SkipEveryone.corner_text(), "XX");
    assert_eq!(CardType::Reverse.corner_text(), "<>");
    assert_eq!(CardType::ReverseDrawFour.corner_text(), "<>");
    assert_eq!(CardType::DiscardAll.corner_text(), "DA");
    assert_eq!(CardType::ColorRoulette.corner_text(), "?");
}

#[test]
fn decimal_digits_of_every_byte() {
    for n in 0..=255u8 {
        assert_eq!(decimal(n), format!("{}", n));
    }
}

#[test]
fn factory_makes_the_cards() {
    assert_eq!(CardFactory::plus_two(CardColor::Red), Card::new(CardColor::Red, CardType::DrawTwo));
    assert_eq!(CardFactory::plus_four(CardColor::Blue), Card::new(CardColor::Blue, CardType::DrawFour));
    assert_eq!(CardFactory::plus_six(), Card::new(CardColor::Wild, CardType::DrawSix));
    assert_eq!(CardFactory::plus_ten(), Card::new(CardColor::Wild, CardType::DrawTen));
    assert_eq!(CardFactory::skip(CardColor::Green), Card::new(CardColor::Green, CardType::Skip));
    assert_eq!(CardFactory::skip_everyone(), Card::new(CardColor::Wild, CardType::SkipEveryone));
    assert_eq!(CardFactory::reverse(CardColor::Yellow), Card::new(CardColor::Yellow, CardType::Reverse));
    assert_eq!(CardFactory::reverse_draw_four(), Card::new(CardColor::Wild, CardType::ReverseDrawFour));
    assert_eq!(CardFactory::discard_all(CardColor::Red), Card::new(CardColor::Red, CardType::DiscardAll));
    assert_eq!(CardFactory::color_roulette(), Card::new(CardColor::Wild, CardType::ColorRoulette));
}

#[test]
fn number_cards_stop_at_nine() {
    assert_eq!(CardFactory::number(CardColor::Red, 7).card_type, CardType::Number(7));
    assert_eq!(CardFactory::number(CardColor::Red, 9).card_type, CardType::Number(9));
    assert_eq!(CardFactory::number(CardColor::Red, 10).card_type, CardType::Number(9));
    assert_eq!(CardFactory::number(CardColor::Blue, 255).card_type, CardType::Number(9));
    assert_eq!(CardFactory::number(CardColor::Blue, 255).color, CardColor::Blue);
}

#[test]
fn card_measures() {
    assert_eq!(Card::corner_radius(150, 220), 18);
    assert_eq!(Card::corner_radius(220, 150), 18);
    assert_eq!(Card::symbol_size(150, 220).raw, 75_000_000);
    assert_eq!(Card::symbol_size(300, 220).raw, 77_000_000);
    assert_eq!(Card::corner_size(150, 220).raw, 26_400_000);
    assert_eq!(Card::margin(150), 12);
}

#[test]
fn card_without_text() {
    let none = GlyphRun::empty();
    let glyphs = CardGlyphs { centre: &none, corner: &none };
    let card = Card::new(CardColor::Red, CardType::Number(7));
    let img = card.render(150, 220, &glyphs);
    assert_eq!((img.width(), img.height()), (150, 220));
    assert_eq!(img.get_pixel(75, 110), WHITE);
    assert_eq!(img.get_pixel(75, 12), Color::rgba(244, 73, 74, 255));
    assert_eq!(img.get_pixel(75, 200), Color::rgba(200, 36, 40, 255));
    assert_eq!(img.get_pixel(5, 110), WHITE);
    assert_eq!(img.get_pixel(0, 0), BLANK);
    assert_eq!(img.get_pixel(149, 0), BLANK);
    let shadow = img.get_pixel(148, 110);
    assert_eq!((shadow.r, shadow.g, shadow.b), (0, 0, 0));
    assert!(shadow.a > 0 && shadow.a < 255, "{:?}", shadow);
}

#[test]
fn red_seven_has_a_red_symbol_in_the_middle() {
    let centre = block(40, 60);
    let corner = block(8, 12);
    let glyphs = CardGlyphs { centre: &centre, corner: &corner };
    let card = Card::new(CardColor::Red, CardType::Number(7));
    let img = card.render(150, 220, &glyphs);
    assert_eq!(img.get_pixel(75, 110), Color::rgba(237, 28, 36, 255));
    assert_eq!(img.get_pixel(55, 80), Color::rgba(237, 28, 36, 255));
    assert_eq!(img.get_pixel(94, 139), Color::rgba(237, 28, 36, 255));
    assert_eq!(img.get_pixel(96, 110), Color::rgba(0, 0, 0, 80));
    assert_eq!(img.get_pixel(54, 110), Color::rgba(252, 252, 252, 255));
    assert_eq!(img.get_pixel(12, 12), WHITE);
    assert_eq!(img.get_pixel(20, 24), Color::rgba(0, 0, 0, 100));
    assert_eq!(img.get_pixel(130, 182), WHITE);
    assert_eq!(img.get_pixel(137, 193), WHITE);
}

#[test]
fn yellow_cards_have_a_dark_symbol() {
    let centre = block(40, 60);
    let corner = GlyphRun::empty();
    let glyphs = CardGlyphs { centre: &centre, corner: &corner };
    let img = Card::new(CardColor::Yellow, CardType::Skip).render(150, 220, &glyphs);
    assert_eq!(img.get_pixel(75, 110), Color::rgba(35, 31, 32, 255));
    let img = Card::new(CardColor::Wild, CardType::DrawTen).render(150, 220, &glyphs);
    assert_eq!(img.get_pixel(75, 110), Color::rgba(35, 31, 32, 255));
    let img = Card::new(CardColor::Blue, CardType::DrawFour).render(150, 220, &glyphs);
    assert_eq!(img.get_pixel(75, 110), Color::rgba(0, 114, 188, 255));
}

#[test]
fn tiny_cards_do_not_fail() {
    let none = GlyphRun::empty();
    let glyphs = CardGlyphs { centre: &none, corner: &none };
    let card = Card::new(CardColor::Green, CardType::Reverse);
    for (w, h) in [(0u32, 0u32), (1, 1), (0, 9), (9, 0), (3, 7), (16, 16)] {
        let img = card.render(w, h, &glyphs);
        assert_eq!((img.width(), img.height()), (w, h));
    }
}

#[test]
fn rendering_a_card_twice_gives_the_same_image() {
    let centre = block(10, 20);
    let corner = block(4, 6);
    let glyphs = CardGlyphs { centre: &centre, corner: &corner };
    let card = Card::new(CardColor::Green, CardType::Reverse);
    let a = card.render(60, 90, &glyphs).into_bytes();
    let b = card.render(60, 90, &glyphs).into_bytes();
    assert_eq!(a, b);
}

#[test]
fn empty_stack_is_a_blank_card() {
    let cards: Vec<PrintedCard> = Vec::new();
    for offset in [0, 20, -20, i32::MAX, i32::MIN] {
        let img = CardRenderer::render_stack(&cards, 100, 150, offset);
        assert_eq!((img.width(), img.height()), (100, 150));
        assert!(img.into_bytes().iter().all(|&v| v == 0));
    }
}

#[test]
fn empty_stack_of_any_extent() {
    let cards: Vec<PrintedCard> = Vec::new();
    for (w, h) in [(3_000_000_000u32, 0u32), (0, 4_000_000_000), (0, 0), (u32::MAX, 0)] {
        if can_allocate(w, h) {
            let img = CardRenderer::render_stack(&cards, w, h, i32::MIN);
            assert_eq!((img.width(), img.height()), (w, h));
            let fan = CardRenderer::render_fan(&cards, w, h, Fixed::one());
            assert_eq!((fan.width(), fan.height()), (w, h));
        }
    }
}

#[test]
fn stack_of_two_cards() {
    let none = GlyphRun::empty();
    let cards = vec![
        PrintedCard {
            card: CardFactory::plus_four(CardColor::Red),
            glyphs: CardGlyphs { centre: &none, corner: &none },
        },
        PrintedCard { card: CardFactory::plus_six(), glyphs: CardGlyphs { centre: &none, corner: &none } },
    ];
    let img = CardRenderer::render_stack(&cards, 100, 150, 20);
    assert_eq!((img.width(), img.height()), (120, 170));
    assert_eq!(img.get_pixel(70, 95), WHITE);
    assert_eq!(img.get_pixel(50, 8), Color::rgba(246, 75, 76, 255));
    assert_eq!(img.get_pixel(70, 160), Color::rgba(30, 27, 27, 255));
    let mirrored = CardRenderer::render_stack(&cards, 100, 150, -20);
    assert_eq!(mirrored.into_bytes(), img.into_bytes());
}

#[test]
fn fan_of_cards() {
    let none = GlyphRun::empty();
    let empty: Vec<PrintedCard> = Vec::new();
    let img = CardRenderer::render_fan(&empty, 100, 150, Fixed::one());
    assert_eq!((img.width(), img.height()), (100, 150));
    assert!(img.into_bytes().iter().all(|&v| v == 0));
    let mut cards: Vec<PrintedCard> = Vec::new();
    for color in [CardColor::Red, CardColor::Blue, CardColor::Green] {
        cards.push(PrintedCard {
            card: CardFactory::skip(color),
            glyphs: CardGlyphs { centre: &none, corner: &none },
        });
    }
    let img = CardRenderer::render_fan(&cards, 100, 150, Fixed::one());
    assert_eq!((img.width(), img.height()), (375, 375));
    assert_eq!(CardRenderer::fan_side(100, 150), 375);
    assert_eq!(CardRenderer::fan_y(100, 150), 150);
    assert_eq!(CardRenderer::fan_x(100, 150, Fixed::zero()), 137);
    assert_eq!(CardRenderer::fan_angle(Fixed::one(), 3, 0).raw, -500_000);
    assert_eq!(CardRenderer::fan_angle(Fixed::one(), 3, 1).raw, 0);
    assert_eq!(CardRenderer::fan_angle(Fixed::one(), 3, 2).raw, 500_000);
    assert_eq!(CardRenderer::fan_angle(Fixed::one(), 1, 0).raw, -500_000);
    let middle = img.get_pixel(187, 225);
    assert!(middle.r >= 240 && middle.r == middle.g && middle.g == middle.b && middle.a == 255);
    assert_eq!(img.get_pixel(5, 5), BLANK);
    assert_eq!(img.get_pixel(187, 320), BLANK);
}

#[test]
fn flying_cards_follow_from_the_seed() {
    let a = CardRenderer::plan_flying_cards(100, 150, 15, 42);
    let b = CardRenderer::plan_flying_cards(100, 150, 15, 42);
    let c = CardRenderer::plan_flying_cards(100, 150, 15, 43);
    assert_eq!(a.len(), 15);
    assert_eq!(a, b);
    assert_ne!(a, c);
    assert_eq!(CardRenderer::plan_flying_cards(100, 150, 0, 42).len(), 0);
    let longer = CardRenderer::plan_flying_cards(100, 150, 20, 42);
    assert_eq!(&longer[..15], &a[..]);
    for card in &a {
        assert!(30 <= card.width && card.width < 70, "{:?}", card);
        assert!(45 <= card.height && card.height < 105, "{:?}", card);
        assert!(0 <= card.x && (card.x as u32) < 400 - card.width);
        assert!(0 <= card.y && (card.y as u32) < 600 - card.height);
        assert!(card.card.color != CardColor::Wild);
        match card.card.card_type {
            CardType::Number(n) => assert!(n <= 9),
            _ => panic!("a flying card is a number card"),
        }
    }
}

#[test]
fn flying_cards_are_drawn_where_they_are_placed() {
    let none = GlyphRun::empty();
    let place = FlyingCard {
        card: CardFactory::number(CardColor::Blue, 3),
        width: 40,
        height: 60,
        x: 100,
        y: 200,
    };
    let cards = vec![PrintedFlyingCard { place, glyphs: CardGlyphs { centre: &none, corner: &none } }];
    let img = CardRenderer::render_flying_cards(100, 150, &cards);
    assert_eq!((img.width(), img.height()), (400, 600));
    assert_eq!(img.get_pixel(120, 230), WHITE);
    assert_eq!(img.get_pixel(99, 230), BLANK);
    assert_eq!(img.get_pixel(50, 50), BLANK);
    let nothing: Vec<PrintedFlyingCard> = Vec::new();
    let blank = CardRenderer::render_flying_cards(10, 10, &nothing);
    assert_eq!((blank.width(), blank.height()), (40, 40));
    assert!(blank.into_bytes().iter().all(|&v| v == 0));
}

#[test]
fn card_with_glow() {
    let none = GlyphRun::empty();
    let glyphs = CardGlyphs { centre: &none, corner: &none };
    let card = Card::new(CardColor::Red, CardType::Number(7));
    let img = card.render_with_glow(60, 90, Color::rgba(255, 200, 0, 255), 10, &glyphs);
    assert_eq!((img.width(), img.height()), (80, 110));
    assert_eq!(img.get_pixel(40, 55), WHITE);
    assert_eq!(img.get_pixel(0, 0), BLANK);
    let halo = img.get_pixel(0, 55);
    assert_eq!(halo, Color::rgba(255, 200, 0, 180));
    let inner = img.get_pixel(5, 55);
    assert_eq!((inner.r, inner.g, inner.b), (255, 200, 0));
    assert!(inner.a > halo.a, "{:?} {:?}", inner, halo);
    let plain = card.render_with_glow(60, 90, Color::rgba(255, 200, 0, 255), 0, &glyphs);
    assert_eq!(plain.into_bytes(), card.render(60, 90, &glyphs).into_bytes());
}

#[test]
fn composite_image_blends() {
    let mut dest = Canvas::filled(3, 3, Color::rgba(0, 0, 255, 255));
    let src = Canvas::filled(1, 1, Color::rgba(255, 0, 0, 128));
    CardRenderer::composite_image(&mut dest, &src, 1, 1);
    assert_eq!(dest.get_pixel(1, 1), Color::rgba(128, 0, 127, 255));
    assert_eq!(dest.get_pixel(0, 0), Color::rgba(0, 0, 255, 255));
}

#[test]
fn card_point_in_rounded_rect() {
    let card = Card::new(CardColor::Red, CardType::Skip);
    assert!(!card.point_in_rounded_rect(0, 0, 142, 212, 18));
    assert!(card.point_in_rounded_rect(6, 6, 142, 212, 18));
    assert!(card.point_in_rounded_rect(71, 0, 142, 212, 18));
    assert!(!card.point_in_rounded_rect(141, 211, 142, 212, 18));
}
