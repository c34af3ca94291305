use uno_no_mercy_video::canvas::Canvas;
use uno_no_mercy_video::character::{draw_eyebrow, Character, CharacterColors, Expression};
use uno_no_mercy_video::color::Color;
use uno_no_mercy_video::fixed::Fixed;

const BLANK: Color = Color { r: 0, g: 0, b: 0, a: 0 };

#[test]
fn palette() {
    let c = CharacterColors::default();
    assert_eq!(c.skin, Color::rgba(255, 218, 185, 255));
    assert_eq!(c.outline, Color::rgba(55, 45, 45, 255));
    assert_eq!(c.blush, Color::rgba(255, 180, 180, 80));
    assert_eq!(c.shirt_highlight, Color::rgba(250, 95, 95, 255));
    assert_eq!(c, CharacterColors::standard());
    assert_eq!(Character::new().colors, c);
    assert_eq!(Character::default(), Character::new());
}

#[test]
fn sprite_extent_follows_the_scale() {
    assert_eq!(Character::sprite_width(Fixed::one()), 500);
    assert_eq!(Character::sprite_height(Fixed::one()), 600);
    assert_eq!(Character::sprite_width(Fixed::millionths(1_500_000)), 750);
    assert_eq!(Character::sprite_height(Fixed::millionths(1_300_000)), 780);
    assert_eq!(Character::sprite_height(Fixed::millionths(900_000)), 540);
    assert_eq!(Character::sprite_width(Fixed::zero()), 0);
    assert_eq!(Character::sprite_width(Fixed::from_int(-2)), 0);
}

#[test]
fn neutral_character() {
    let img = Character::new().render(Expression::Neutral, Fixed::one());
    assert_eq!((img.width(), img.height()), (500, 600));
    assert_eq!(img.get_pixel(0, 0), BLANK);
    assert_eq!(img.get_pixel(499, 0), BLANK);
    assert_eq!(img.get_pixel(0, 599), BLANK);
    let face = img.get_pixel(250, 300);
    assert_eq!(face.a, 255);
    assert!(face.r > 200 && face.r > face.g && face.g > face.b, "{:?}", face);
    assert_eq!(img.get_pixel(202, 287), Color::rgba(15, 15, 20, 255));
    assert_eq!(img.get_pixel(298, 287), Color::rgba(15, 15, 20, 255));
    assert_eq!(img.get_pixel(196, 276), Color::rgba(255, 255, 255, 255));
    assert_eq!(img.get_pixel(202, 240), Color::rgba(55, 45, 45, 255));
    let hair = img.get_pixel(250, 200);
    assert!(hair.r < 100 && hair.a == 255, "{:?}", hair);
    let shirt = img.get_pixel(250, 520);
    assert!(shirt.r > 150 && shirt.g < 110 && shirt.a == 255, "{:?}", shirt);
    assert_eq!(img.get_pixel(250, 352), Color::rgba(255, 255, 252, 255));
}

#[test]
fn expressions_differ() {
    let all = [
        Expression::Neutral,
        Expression::Shocked,
        Expression::Serious,
        Expression::Mischievous,
        Expression::MindBlown,
        Expression::Whispering,
    ];
    let scale = Fixed::millionths(400_000);
    let images: Vec<Vec<u8>> =
        all.iter().map(|e| Character::new().render(*e, scale).into_bytes()).collect();
    for i in 0..all.len() {
        assert_eq!(images[i].len(), 200 * 240 * 4);
        for j in 0..i {
            assert_ne!(images[i], images[j], "{:?} and {:?}", all[i], all[j]);
        }
    }
    let again = Character::new().render(Expression::Shocked, scale).into_bytes();
    assert_eq!(again, images[1]);
}

#[test]
fn character_of_no_extent() {
    let img = Character::new().render(Expression::Serious, Fixed::zero());
    assert_eq!((img.width(), img.height()), (0, 0));
    let img = Character::new().render(Expression::Serious, Fixed::millionths(2_000));
    assert_eq!((img.width(), img.height()), (1, 1));
}

#[test]
fn face_parts_are_drawn_where_they_belong() {
    let c = Character::new();
    let one = Fixed::one();
    let mut img = Canvas::new(100, 100);
    c.draw_nose(&mut img, Fixed::from_int(50), Fixed::from_int(50), one);
    assert_eq!(img.get_pixel(50, 50), c.colors.skin_shadow);
    assert_eq!(img.get_pixel(58, 50), c.colors.skin_shadow);
    assert_eq!(img.get_pixel(60, 50), BLANK);
    assert_eq!(img.get_pixel(50, 57), BLANK);
    let mut img = Canvas::new(100, 100);
    c.draw_eye(&mut img, Fixed::from_int(50), Fixed::from_int(50), one, Fixed::from_int(26), Fixed::from_int(32), Fixed::zero(), Fixed::zero());
    assert_eq!(img.get_pixel(50, 55), c.colors.eye_pupil);
    assert_eq!(img.get_pixel(50, 65), c.colors.eye_iris);
    assert_eq!(img.get_pixel(50, 75), c.colors.eye_white);
    assert_eq!(img.get_pixel(44, 44), c.colors.eye_shine);
    let rim = img.get_pixel(50, 83);
    assert!(rim.r < 128 && rim.a > 128, "{:?}", rim);
    assert_eq!(img.get_pixel(50, 90), BLANK);
}

#[test]
fn eyebrow_leans_with_its_angle() {
    let ink = Color::rgba(55, 45, 45, 255);
    let mut flat = Canvas::new(100, 60);
    draw_eyebrow(&mut flat, Fixed::from_int(50), Fixed::from_int(30), Fixed::one(), Fixed::zero(), Fixed::from_int(5), ink);
    assert_eq!(flat.get_pixel(50, 30), ink);
    assert_eq!(flat.get_pixel(20, 30), ink);
    assert_eq!(flat.get_pixel(80, 30), ink);
    assert_eq!(flat.get_pixel(50, 34), BLANK);
    assert_eq!(flat.get_pixel(5, 30), BLANK);
    let mut leaning = Canvas::new(100, 60);
    draw_eyebrow(&mut leaning, Fixed::from_int(50), Fixed::from_int(30), Fixed::one(), Fixed::millionths(450_000), Fixed::from_int(5), ink);
    assert_eq!(leaning.get_pixel(50, 30), ink);
    assert_eq!(leaning.get_pixel(75, 36), ink);
    assert_eq!(leaning.get_pixel(25, 24), ink);
    assert_eq!(leaning.get_pixel(75, 30), BLANK);
    assert_eq!(leaning.get_pixel(25, 30), BLANK);
}
