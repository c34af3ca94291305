//! Playing-card sprites.

use vstd::prelude::*;
use vstd::string::*;
use crate::canvas::{can_allocate, fits_memory, Canvas, Overlay, PixelRule};
use crate::color::{spec_paint_over, Color};
use crate::fixed::Fixed;
use crate::random::{draw_below, seeded_state, SeededRng};
use crate::shapes::{mix, point_in_rounded_rect, rounded_rect, spec_point_in_rounded_rect, RoundedRect};
use crate::text::{
    count_fixed, draw_glyphs, lemma_whole_layers_paint_over, reach, spec_reach, GlyphLayer, GlyphRun,
};

verus! {

/// Colour category of a card.
#[derive(Debug, Clone, Copy, PartialEq, Eq, Structural)]
pub enum CardColor {
    Red,
    Blue,
    Green,
    Yellow,
    Wild,
}

impl CardColor {
    /// The base colour of the category.
    pub open spec fn spec_to_rgba(&self) -> Color {
        match self {
            CardColor::Red => Color::rgba(237, 28, 36, 255),
            CardColor::Blue => Color::rgba(0, 114, 188, 255),
            CardColor::Green => Color::rgba(0, 166, 81, 255),
            CardColor::Yellow => Color::rgba(255, 237, 0, 255),
            CardColor::Wild => Color::rgba(35, 31, 32, 255),
        }
    }

    #[verifier::when_used_as_spec(spec_to_rgba)]
    pub fn to_rgba(&self) -> (r: Color)
        ensures
            r == self.spec_to_rgba(),
    {
        match self {
            CardColor::Red => Color::rgba(237, 28, 36, 255),
            CardColor::Blue => Color::rgba(0, 114, 188, 255),
            CardColor::Green => Color::rgba(0, 166, 81, 255),
            CardColor::Yellow => Color::rgba(255, 237, 0, 255),
            CardColor::Wild => Color::rgba(35, 31, 32, 255),
        }
    }

    /// The dark end of the gradient of the category.
    pub open spec fn spec_to_dark(&self) -> Color {
        match self {
            CardColor::Red => Color::rgba(180, 20, 25, 255),
            CardColor::Blue => Color::rgba(0, 80, 140, 255),
            CardColor::Green => Color::rgba(0, 120, 60, 255),
            CardColor::Yellow => Color::rgba(200, 180, 0, 255),
            CardColor::Wild => Color::rgba(20, 18, 18, 255),
        }
    }

    #[verifier::when_used_as_spec(spec_to_dark)]
    pub fn to_dark(&self) -> (r: Color)
        ensures
            r == self.spec_to_dark(),
    {
        match self {
            CardColor::Red => Color::rgba(180, 20, 25, 255),
            CardColor::Blue => Color::rgba(0, 80, 140, 255),
            CardColor::Green => Color::rgba(0, 120, 60, 255),
            CardColor::Yellow => Color::rgba(200, 180, 0, 255),
            CardColor::Wild => Color::rgba(20, 18, 18, 255),
        }
    }

    /// The light end of the gradient of the category.
    pub open spec fn spec_to_light(&self) -> Color {
        match self {
            CardColor::Red => Color::rgba(255, 80, 80, 255),
            CardColor::Blue => Color::rgba(80, 160, 230, 255),
            CardColor::Green => Color::rgba(80, 200, 120, 255),
            CardColor::Yellow => Color::rgba(255, 250, 100, 255),
            CardColor::Wild => Color::rgba(60, 55, 55, 255),
        }
    }

    #[verifier::when_used_as_spec(spec_to_light)]
    pub fn to_light(&self) -> (r: Color)
        ensures
            r == self.spec_to_light(),
    {
        match self {
            CardColor::Red => Color::rgba(255, 80, 80, 255),
            CardColor::Blue => Color::rgba(80, 160, 230, 255),
            CardColor::Green => Color::rgba(80, 200, 120, 255),
            CardColor::Yellow => Color::rgba(255, 250, 100, 255),
            CardColor::Wild => Color::rgba(60, 55, 55, 255),
        }
    }
}

/// What a card does.
#[derive(Debug, Clone, Copy, PartialEq, Eq, Structural)]
pub enum CardType {
    Number(u8),
    DrawTwo,
    DrawFour,
    DrawSix,
    DrawTen,
    Skip,
    SkipEveryone,
    Reverse,
    ReverseDrawFour,
    DiscardAll,
    ColorRoulette,
}

/// The character of a decimal digit.
pub open spec fn digit_char(d: int) -> char {
    if d == 0 {
        '0'
    } else if d == 1 {
        '1'
    } else if d == 2 {
        '2'
    } else if d == 3 {
        '3'
    } else if d == 4 {
        '4'
    } else if d == 5 {
        '5'
    } else if d == 6 {
        '6'
    } else if d == 7 {
        '7'
    } else if d == 8 {
        '8'
    } else {
        '9'
    }
}

/// The decimal digits of `n`, without leading zeros.
pub open spec fn spec_decimal(n: u8) -> Seq<char> {
    if n < 10 {
        seq![digit_char(n as int)]
    } else if n < 100 {
        seq![digit_char(n as int / 10), digit_char(n as int % 10)]
    } else {
        seq![digit_char(n as int / 100), digit_char((n as int / 10) % 10), digit_char(n as int % 10)]
    }
}

fn digit_str(d: u8) -> (s: &'static str)
    requires
        d < 10,
    ensures
        s@ == seq![digit_char(d as int)],
{
    proof {
        reveal_strlit("0");
        reveal_strlit("1");
        reveal_strlit("2");
        reveal_strlit("3");
        reveal_strlit("4");
        reveal_strlit("5");
        reveal_strlit("6");
        reveal_strlit("7");
        reveal_strlit("8");
        reveal_strlit("9");
    }
    let s = if d == 0 {
        "0"
    } else if d == 1 {
        "1"
    } else if d == 2 {
        "2"
    } else if d == 3 {
        "3"
    } else if d == 4 {
        "4"
    } else if d == 5 {
        "5"
    } else if d == 6 {
        "6"
    } else if d == 7 {
        "7"
    } else if d == 8 {
        "8"
    } else {
        "9"
    };
    assert(s@ =~= seq![digit_char(d as int)]);
    s
}

/// `n` in decimal digits.
pub fn decimal(n: u8) -> (s: String)
    ensures
        s@ == spec_decimal(n),
{
    if n < 10 {
        String::from_str(digit_str(n))
    } else if n < 100 {
        let mut s = String::from_str(digit_str(n / 10));
        s.append(digit_str(n % 10));
        assert(s@ =~= spec_decimal(n));
        s
    } else {
        let mut s = String::from_str(digit_str(n / 100));
        s.append(digit_str((n / 10) % 10));
        s.append(digit_str(n % 10));
        assert(s@ =~= spec_decimal(n));
        s
    }
}

impl CardType {
    /// The text in the middle of the card.
    pub open spec fn spec_display_text(&self) -> Seq<char> {
        match self {
            CardType::Number(n) => spec_decimal(*n),
            CardType::DrawTwo => "+2"@,
            CardType::DrawFour => "+4"@,
            CardType::DrawSix => "+6"@,
            CardType::DrawTen => "+10"@,
            CardType::Skip => "O/"@,
            CardType::SkipEveryone => "O//"@,
            CardType::Reverse => "<>"@,
            CardType::ReverseDrawFour => "<>4"@,
            CardType::DiscardAll => "ALL"@,
            CardType::ColorRoulette => "?"@,
        }
    }

    pub fn display_text(&self) -> (s: String)
        ensures
            s@ == self.spec_display_text(),
    {
        match self {
            CardType::Number(n) => decimal(*n),
            CardType::DrawTwo => String::from_str("+2"),
            CardType::DrawFour => String::from_str("+4"),
            CardType::DrawSix => String::from_str("+6"),
            CardType::DrawTen => String::from_str("+10"),
            CardType::Skip => String::from_str("O/"),
            CardType::SkipEveryone => String::from_str("O//"),
            CardType::Reverse => String::from_str("<>"),
            CardType::ReverseDrawFour => String::from_str("<>4"),
            CardType::DiscardAll => String::from_str("ALL"),
            CardType::ColorRoulette => String::from_str("?"),
        }
    }

    /// The abbreviated text in the corners of the card.
    pub open spec fn spec_corner_text(&self) -> Seq<char> {
        match self {
            CardType::Number(n) => spec_decimal(*n),
            CardType::DrawTwo => "+2"@,
            CardType::DrawFour => "+4"@,
            CardType::DrawSix => "+6"@,
            CardType::DrawTen => "+10"@,
            CardType::Skip => "X"@,
            CardType::SkipEveryone => "XX"@,
            CardType::Reverse => "<>"@,
            CardType::ReverseDrawFour => "<>"@,
            CardType::DiscardAll => "DA"@,
            CardType::ColorRoulette => "?"@,
        }
    }

    pub fn corner_text(&self) -> (s: String)
        ensures
            s@ == self.spec_corner_text(),
    {
        match self {
            CardType::Number(n) => decimal(*n),
            CardType::DrawTwo => String::from_str("+2"),
            CardType::DrawFour => String::from_str("+4"),
            CardType::DrawSix => String::from_str("+6"),
            CardType::DrawTen => String::from_str("+10"),
            CardType::Skip => String::from_str("X"),
            CardType::SkipEveryone => String::from_str("XX"),
            CardType::Reverse => String::from_str("<>"),
            CardType::ReverseDrawFour => String::from_str("<>"),
            CardType::DiscardAll => String::from_str("DA"),
            CardType::ColorRoulette => String::from_str("?"),
        }
    }
}

/// The two lines of text on a card, rasterised: the symbol in the middle
/// and the index in the corners.
pub struct CardGlyphs<'a> {
    pub centre: &'a GlyphRun,
    pub corner: &'a GlyphRun,
}

/// `v - less`, or zero where that would be negative.
pub open spec fn spec_shrink(v: u32, less: u32) -> u32 {
    if v < less {
        0
    } else {
        (v - less) as u32
    }
}

#[verifier::when_used_as_spec(spec_shrink)]
pub fn shrink(v: u32, less: u32) -> (r: u32)
    ensures
        r == spec_shrink(v, less),
{
    if v < less {
        0
    } else {
        v - less
    }
}

/// `v + more`, or the largest extent where that would overflow.
pub open spec fn spec_grow(v: u32, more: u32) -> u32 {
    if v + more > u32::MAX {
        u32::MAX
    } else {
        (v + more) as u32
    }
}

#[verifier::when_used_as_spec(spec_grow)]
pub fn grow(v: u32, more: u32) -> (r: u32)
    ensures
        r == spec_grow(v, more),
{
    if v as u64 + more as u64 > u32::MAX as u64 {
        u32::MAX
    } else {
        v + more
    }
}

/// The body of a card: a rounded rectangle filled with a gradient from the
/// light colour at the top left to the dark one at the bottom right, with a
/// band of shine along the top.
pub struct CardGradient {
    pub x: i32,
    pub y: i32,
    pub w: u32,
    pub h: u32,
    pub radius: i32,
    pub dark: Color,
    pub light: Color,
}

impl CardGradient {
    /// Whether the canvas pixel `(px, py)` belongs to the rounded rectangle.
    pub open spec fn spec_inside(&self, px: u32, py: u32) -> bool {
        (RoundedRect {
            x: self.x,
            y: self.y,
            w: self.w,
            h: self.h,
            radius: self.radius,
            color: self.dark,
        }).covers(px as int, py as int)
    }

    #[verifier::when_used_as_spec(spec_inside)]
    pub fn inside(&self, px: u32, py: u32) -> (r: bool)
        ensures
            r == self.spec_inside(px, py),
    {
        if self.w > i32::MAX as u32 || self.h > i32::MAX as u32 {
            return false;
        }
        let rx: i64 = px as i64 - self.x as i64;
        let ry: i64 = py as i64 - self.y as i64;
        if rx < 0 || rx >= self.w as i64 || ry < 0 || ry >= self.h as i64 {
            return false;
        }
        point_in_rounded_rect(rx as i32, ry as i32, self.w as i32, self.h as i32, self.radius)
    }

    /// A pixel of the rounded rectangle is set to the gradient colour; any other
    /// keeps what it held.
    pub open spec fn spec_tint(&self, old: Color, px: u32, py: u32) -> Color {
        if self.inside(px, py) {
            let rel_x = Fixed::from_int((px as i64 - self.x as i64) as i64);
            let rel_y = Fixed::from_int((py as i64 - self.y as i64) as i64);
            let t = rel_x.over(Fixed::from_int(self.w as i64)).plus(
                rel_y.over(Fixed::from_int(self.h as i64)),
            ).over(Fixed::from_int(2));
            let band = Fixed::from_int((self.h as i64 / 4) as i64);
            let shine = if rel_y.below(band) {
                Fixed::one().minus(rel_y.over(Fixed::ratio(self.h as i64, 4))).times(
                    Fixed::millionths(200_000),
                )
            } else {
                Fixed::zero()
            };
            let lift = shine.times(Fixed::from_int(50));
            Color::rgba(
                mix(Fixed::from_int(self.light.r as i64), Fixed::from_int(self.dark.r as i64), t).plus(
                    lift,
                ).channel(),
                mix(Fixed::from_int(self.light.g as i64), Fixed::from_int(self.dark.g as i64), t).plus(
                    lift,
                ).channel(),
                mix(Fixed::from_int(self.light.b as i64), Fixed::from_int(self.dark.b as i64), t).plus(
                    lift,
                ).channel(),
                255,
            )
        } else {
            old
        }
    }

    #[verifier::when_used_as_spec(spec_tint)]
    pub fn tint(&self, old: Color, px: u32, py: u32) -> (r: Color)
        ensures
            r == self.spec_tint(old, px, py),
    {
        if self.inside(px, py) {
            let rel_x = Fixed::from_int((px as i64 - self.x as i64) as i64);
            let rel_y = Fixed::from_int((py as i64 - self.y as i64) as i64);
            let t = rel_x.over(Fixed::from_int(self.w as i64)).plus(
                rel_y.over(Fixed::from_int(self.h as i64)),
            ).over(Fixed::from_int(2));
            let band = Fixed::from_int((self.h as i64 / 4) as i64);
            let shine = if rel_y.below(band) {
                Fixed::one().minus(rel_y.over(Fixed::ratio(self.h as i64, 4))).times(
                    Fixed::millionths(200_000),
                )
            } else {
                Fixed::zero()
            };
            let lift = shine.times(Fixed::from_int(50));
            Color::rgba(
                mix(Fixed::from_int(self.light.r as i64), Fixed::from_int(self.dark.r as i64), t).plus(
                    lift,
                ).channel(),
                mix(Fixed::from_int(self.light.g as i64), Fixed::from_int(self.dark.g as i64), t).plus(
                    lift,
                ).channel(),
                mix(Fixed::from_int(self.light.b as i64), Fixed::from_int(self.dark.b as i64), t).plus(
                    lift,
                ).channel(),
                255,
            )
        } else {
            old
        }
    }
}

impl PixelRule for CardGradient {
    open spec fn spec_shade(&self, old: Color, x: int, y: int) -> Color {
        self.spec_tint(old, x as u32, y as u32)
    }

    fn shade(&self, old: Color, x: u32, y: u32) -> (c: Color) {
        self.tint(old, x, y)
    }
}

/// Cosine of the tilt of the oval of a card, in millionths.
pub const OVAL_COS: i64 = 939_373;

/// Sine of the tilt of the oval of a card, in millionths.
pub const OVAL_SIN: i64 = -342_898;

/// The white oval that lies across a card, tilted by 0.35 radians.
pub struct DiagonalOval {
    pub width: u32,
    pub height: u32,
}

impl DiagonalOval {
    /// Where the pixel `(px, py)` lies relative to the outline of the oval: the
    /// sum of the squares of its rotated offsets from the middle of the card, each
    /// in units of the half axis of 38% of the width and 28% of the height. The
    /// outline lies at one.
    pub open spec fn spec_level(&self, px: u32, py: u32) -> Fixed {
        let dx = Fixed::from_int(px as i64).minus(Fixed::ratio(self.width as i64, 2));
        let dy = Fixed::from_int(py as i64).minus(Fixed::ratio(self.height as i64, 2));
        let along = dx.times(Fixed::millionths(OVAL_COS)).plus(dy.times(Fixed::millionths(OVAL_SIN))).over(
            Fixed::from_int(self.width as i64).times(Fixed::millionths(380_000)),
        );
        let across = dy.times(Fixed::millionths(OVAL_COS)).minus(
            dx.times(Fixed::millionths(OVAL_SIN)),
        ).over(Fixed::from_int(self.height as i64).times(Fixed::millionths(280_000)));
        along.times(along).plus(across.times(across))
    }

    #[verifier::when_used_as_spec(spec_level)]
    pub fn level(&self, px: u32, py: u32) -> (r: Fixed)
        ensures
            r == self.spec_level(px, py),
    {
        let dx = Fixed::from_int(px as i64).minus(Fixed::ratio(self.width as i64, 2));
        let dy = Fixed::from_int(py as i64).minus(Fixed::ratio(self.height as i64, 2));
        let along = dx.times(Fixed::millionths(OVAL_COS)).plus(dy.times(Fixed::millionths(OVAL_SIN))).over(
            Fixed::from_int(self.width as i64).times(Fixed::millionths(380_000)),
        );
        let across = dy.times(Fixed::millionths(OVAL_COS)).minus(
            dx.times(Fixed::millionths(OVAL_SIN)),
        ).over(Fixed::from_int(self.height as i64).times(Fixed::millionths(280_000)));
        along.times(along).plus(across.times(across))
    }

    /// Inside the oval a pixel is set to a white that is brightest in the
    /// middle; in the rim just outside it a grey edge is blended over it.
    pub open spec fn spec_tint(&self, old: Color, px: u32, py: u32) -> Color {
        let level = self.level(px, py);
        if level.at_most(Fixed::one()) {
            let bright = Fixed::from_int(240).plus(
                Fixed::from_int(15).times(Fixed::one().minus(level)),
            ).channel();
            Color::rgba(bright, bright, bright, 255)
        } else if level.at_most(Fixed::millionths(1_080_000)) {
            Color::paint_over(
                Color::rgba(
                    200,
                    200,
                    200,
                    Fixed::millionths(1_080_000).minus(level).over(Fixed::millionths(80_000)).times(
                        Fixed::from_int(100),
                    ).channel(),
                ),
                old,
            )
        } else {
            old
        }
    }

    #[verifier::when_used_as_spec(spec_tint)]
    pub fn tint(&self, old: Color, px: u32, py: u32) -> (r: Color)
        ensures
            r == self.spec_tint(old, px, py),
    {
        let level = self.level(px, py);
        if level.at_most(Fixed::one()) {
            let bright = Fixed::from_int(240).plus(
                Fixed::from_int(15).times(Fixed::one().minus(level)),
            ).channel();
            Color::rgba(bright, bright, bright, 255)
        } else if level.at_most(Fixed::millionths(1_080_000)) {
            Color::paint_over(
                Color::rgba(
                    200,
                    200,
                    200,
                    Fixed::millionths(1_080_000).minus(level).over(Fixed::millionths(80_000)).times(
                        Fixed::from_int(100),
                    ).channel(),
                ),
                old,
            )
        } else {
            old
        }
    }
}

impl PixelRule for DiagonalOval {
    open spec fn spec_shade(&self, old: Color, x: int, y: int) -> Color {
        self.spec_tint(old, x as u32, y as u32)
    }

    fn shade(&self, old: Color, x: u32, y: u32) -> (c: Color) {
        self.tint(old, x, y)
    }
}

/// A playing card.
#[derive(Debug, Clone, Copy, PartialEq, Eq, Structural)]
pub struct Card {
    pub color: CardColor,
    pub card_type: CardType,
}

impl Card {
    pub open spec fn spec_new(color: CardColor, card_type: CardType) -> Card {
        Card { color, card_type }
    }

    #[verifier::when_used_as_spec(spec_new)]
    pub fn new(color: CardColor, card_type: CardType) -> (c: Card)
        ensures
            c == Card::spec_new(color, card_type),
    {
        Card { color, card_type }
    }

    /// Whether `(px, py)` belongs to the rounded rectangle of `w` × `h`.
    pub fn point_in_rounded_rect(&self, px: i32, py: i32, w: i32, h: i32, radius: i32) -> (inside: bool)
        ensures
            inside == spec_point_in_rounded_rect(
                px as int,
                py as int,
                w as int,
                h as int,
                radius as int,
            ),
    {
        point_in_rounded_rect(px, py, w, h, radius)
    }

    /// Radius of the corners of a card: 12% of its shorter side.
    pub open spec fn spec_corner_radius(width: u32, height: u32) -> i32 {
        Fixed::from_int(if width < height {
            width as i64
        } else {
            height as i64
        }).times(Fixed::millionths(120_000)).pixels()
    }

    #[verifier::when_used_as_spec(spec_corner_radius)]
    pub fn corner_radius(width: u32, height: u32) -> (r: i32)
        ensures
            r == Card::spec_corner_radius(width, height),
    {
        Fixed::from_int(if width < height {
            width as i64
        } else {
            height as i64
        }).times(Fixed::millionths(120_000)).pixels()
    }
    /// Size in pixels of the symbol in the middle of a card: 35% of the height,
    /// at most half the width.
    pub open spec fn spec_symbol_size(width: u32, height: u32) -> Fixed {
        Fixed::from_int(height as i64).times(Fixed::millionths(350_000)).lower(
            Fixed::from_int(width as i64).times(Fixed::millionths(500_000)),
        )
    }

    #[verifier::when_used_as_spec(spec_symbol_size)]
    pub fn symbol_size(width: u32, height: u32) -> (r: Fixed)
        ensures
            r == Card::spec_symbol_size(width, height),
    {
        Fixed::from_int(height as i64).times(Fixed::millionths(350_000)).lower(
            Fixed::from_int(width as i64).times(Fixed::millionths(500_000)),
        )
    }
    /// Size in pixels of the index in the corners of a card: 12% of the height,
    /// at most 18% of the width.
    pub open spec fn spec_corner_size(width: u32, height: u32) -> Fixed {
        Fixed::from_int(height as i64).times(Fixed::millionths(120_000)).lower(
            Fixed::from_int(width as i64).times(Fixed::millionths(180_000)),
        )
    }

    #[verifier::when_used_as_spec(spec_corner_size)]
    pub fn corner_size(width: u32, height: u32) -> (r: Fixed)
        ensures
            r == Card::spec_corner_size(width, height),
    {
        Fixed::from_int(height as i64).times(Fixed::millionths(120_000)).lower(
            Fixed::from_int(width as i64).times(Fixed::millionths(180_000)),
        )
    }
    /// Colour of the symbol in the middle: the base colour of the card, but a
    /// dark one on yellow.
    pub open spec fn spec_symbol_color(&self) -> Color {
        match self.color {
            CardColor::Yellow => Color::rgba(35, 31, 32, 255),
            _ => self.color.to_rgba(),
        }
    }

    #[verifier::when_used_as_spec(spec_symbol_color)]
    pub fn symbol_color(&self) -> (r: Color)
        ensures
            r == self.spec_symbol_color(),
    {
        match self.color {
            CardColor::Yellow => Color::rgba(35, 31, 32, 255),
            _ => self.color.to_rgba(),
        }
    }
    /// The layer of the drop shadow of index `k`: each lies one pixel further out
    /// than the one before and is ten steps of alpha fainter.
    pub open spec fn spec_shadow_layer(width: u32, height: u32, k: u32) -> RoundedRect {
        RoundedRect {
            x: (6 - (k % 8) as i32) as i32,
            y: (6 - (k % 8) as i32) as i32,
            w: shrink(grow(width, (2 * (k % 8)) as u32), 8),
            h: shrink(grow(height, (2 * (k % 8)) as u32), 8),
            radius: Fixed::from_int((Card::corner_radius(width, height) as i64 + (k % 8) as i64) as i64).pixels(),
            color: Color::rgba(0, 0, 0, (80 - 10 * (k % 8)) as u8),
        }
    }

    #[verifier::when_used_as_spec(spec_shadow_layer)]
    pub fn shadow_layer(width: u32, height: u32, k: u32) -> (r: RoundedRect)
        ensures
            r == Card::spec_shadow_layer(width, height, k),
    {
        RoundedRect {
            x: (6 - (k % 8) as i32) as i32,
            y: (6 - (k % 8) as i32) as i32,
            w: shrink(grow(width, (2 * (k % 8)) as u32), 8),
            h: shrink(grow(height, (2 * (k % 8)) as u32), 8),
            radius: Fixed::from_int((Card::corner_radius(width, height) as i64 + (k % 8) as i64) as i64).pixels(),
            color: Color::rgba(0, 0, 0, (80 - 10 * (k % 8)) as u8),
        }
    }

    /// The pixel `(px, py)` after the first `n` layers of the drop shadow.
    pub open spec fn spec_shadows(width: u32, height: u32, acc: Color, px: int, py: int, n: nat) -> Color
        decreases n,
    {
        if n == 0 || n > 8 {
            acc
        } else {
            Card::spec_shadow_layer(width, height, (n - 1) as u32).spec_shade(
                Card::spec_shadows(width, height, acc, px, py, (n - 1) as nat),
                px,
                py,
            )
        }
    }

    /// Draws the drop shadow of a card of the given extent.
#[verifier::rlimit(50)]
    pub fn draw_shadow(img: &mut Canvas, width: u32, height: u32)
        ensures
            final(img).spec_width() == old(img).spec_width(),
            final(img).spec_height() == old(img).spec_height(),
            forall|x: int, y: int|
                final(img).contains(x, y) ==> #[trigger] final(img).at(x, y) == Card::spec_shadows(
                    width,
                    height,
                    old(img).at(x, y),
                    x,
                    y,
                    8,
                ),
    {
        let mut k: u32 = 0;
        while k < 8
            invariant
                k <= 8,
                img.spec_width() == old(img).spec_width(),
                img.spec_height() == old(img).spec_height(),
                forall|x: int, y: int|
                    img.contains(x, y) ==> #[trigger] img.at(x, y) == Card::spec_shadows(
                        width,
                        height,
                        old(img).at(x, y),
                        x,
                        y,
                        k as nat,
                    ),
            decreases 8 - k,
        {
            let layer = Card::shadow_layer(width, height, k);
            rounded_rect(img, layer.x, layer.y, layer.w, layer.h, layer.radius, layer.color);
            k = k + 1;
        }
    }

    /// The white border of the card.
    pub open spec fn spec_border(width: u32, height: u32) -> RoundedRect {
        RoundedRect {
            x: 4,
            y: 4,
            w: shrink(width, 8),
            h: shrink(height, 8),
            radius: Card::corner_radius(width, height),
            color: Color::rgba(255, 255, 255, 255),
        }
    }

    #[verifier::when_used_as_spec(spec_border)]
    pub fn border(width: u32, height: u32) -> (r: RoundedRect)
        ensures
            r == Card::spec_border(width, height),
    {
        RoundedRect {
            x: 4,
            y: 4,
            w: shrink(width, 8),
            h: shrink(height, 8),
            radius: Card::corner_radius(width, height),
            color: Color::rgba(255, 255, 255, 255),
        }
    }
    /// The coloured body of the card.
    pub open spec fn spec_body(&self, width: u32, height: u32) -> CardGradient {
        CardGradient {
            x: 8,
            y: 8,
            w: shrink(width, 16),
            h: shrink(height, 16),
            radius: Fixed::from_int((Card::corner_radius(width, height) as i64 - 4) as i64).pixels(),
            dark: self.color.to_dark(),
            light: self.color.to_light(),
        }
    }

    #[verifier::when_used_as_spec(spec_body)]
    pub fn body(&self, width: u32, height: u32) -> (r: CardGradient)
        ensures
            r == self.spec_body(width, height),
    {
        CardGradient {
            x: 8,
            y: 8,
            w: shrink(width, 16),
            h: shrink(height, 16),
            radius: Fixed::from_int((Card::corner_radius(width, height) as i64 - 4) as i64).pixels(),
            dark: self.color.to_dark(),
            light: self.color.to_light(),
        }
    }
    /// Column of the left edge of the symbol in the middle.
    pub open spec fn spec_symbol_x(width: u32, run: &GlyphRun) -> i32 {
        Fixed::ratio(width as i64, 2).minus(run.advance.over(Fixed::from_int(2))).pixels()
    }

    #[verifier::when_used_as_spec(spec_symbol_x)]
    pub fn symbol_x(width: u32, run: &GlyphRun) -> (r: i32)
        ensures
            r == Card::spec_symbol_x(width, run),
    {
        Fixed::ratio(width as i64, 2).minus(run.advance.over(Fixed::from_int(2))).pixels()
    }
    /// Row of the top edge of the symbol in the middle.
    pub open spec fn spec_symbol_y(height: u32, run: &GlyphRun) -> i32 {
        Fixed::ratio(height as i64, 2).minus(run.line_height.over(Fixed::from_int(2))).pixels()
    }

    #[verifier::when_used_as_spec(spec_symbol_y)]
    pub fn symbol_y(height: u32, run: &GlyphRun) -> (r: i32)
        ensures
            r == Card::spec_symbol_y(height, run),
    {
        Fixed::ratio(height as i64, 2).minus(run.line_height.over(Fixed::from_int(2))).pixels()
    }
    /// Distance of the corner indices from the edges: 8% of the width.
    pub open spec fn spec_margin(width: u32) -> i32 {
        Fixed::from_int(width as i64).times(Fixed::millionths(80_000)).pixels()
    }

    #[verifier::when_used_as_spec(spec_margin)]
    pub fn margin(width: u32) -> (r: i32)
        ensures
            r == Card::spec_margin(width),
    {
        Fixed::from_int(width as i64).times(Fixed::millionths(80_000)).pixels()
    }
    /// Column of the left edge of the index in the bottom-right corner.
    pub open spec fn spec_far_corner_x(width: u32, run: &GlyphRun) -> i64 {
        (width as i64 - Card::margin(width) as i64 - run.advance.pixels() as i64) as i64
    }

    #[verifier::when_used_as_spec(spec_far_corner_x)]
    pub fn far_corner_x(width: u32, run: &GlyphRun) -> (r: i64)
        ensures
            r == Card::spec_far_corner_x(width, run),
    {
        (width as i64 - Card::margin(width) as i64 - run.advance.pixels() as i64) as i64
    }
    /// Row of the top edge of the index in the bottom-right corner.
    pub open spec fn spec_far_corner_y(width: u32, height: u32) -> i64 {
        (height as i64 - Card::margin(width) as i64 - Card::corner_size(width, height).pixels() as i64) as i64
    }

    #[verifier::when_used_as_spec(spec_far_corner_y)]
    pub fn far_corner_y(width: u32, height: u32) -> (r: i64)
        ensures
            r == Card::spec_far_corner_y(width, height),
    {
        (height as i64 - Card::margin(width) as i64 - Card::corner_size(width, height).pixels() as i64) as i64
    }

    /// The pixel `(px, py)` of the card before any text is drawn: shadow,
    /// border, body and oval.
    pub open spec fn spec_blank_pixel(&self, width: u32, height: u32, px: int, py: int) -> Color {
        (DiagonalOval { width, height }).spec_shade(
            self.spec_body(width, height).spec_shade(
                Card::spec_border(width, height).spec_shade(
                    Card::spec_shadows(width, height, Color::transparent(), px, py, 8),
                    px,
                    py,
                ),
                px,
                py,
            ),
            px,
            py,
        )
    }

    /// The pixel `(px, py)` once the symbol in the middle has been drawn
    /// over `acc`: a faint shadow three pixels down and right, then the
    /// symbol itself.
    pub open spec fn spec_symbol_over(
        &self,
        width: u32,
        height: u32,
        run: &GlyphRun,
        acc: Color,
        px: int,
        py: int,
    ) -> Color {
        (GlyphLayer {
            mask: &run.mask,
            x: (Card::spec_symbol_x(width, run) - run.left) as i64,
            y: (Card::spec_symbol_y(height, run) - run.top) as i64,
            ink: self.spec_symbol_color(),
        }).spec_shade(
            (GlyphLayer {
                mask: &run.mask,
                x: (Card::spec_symbol_x(width, run) + 3 - run.left) as i64,
                y: (Card::spec_symbol_y(height, run) + 3 - run.top) as i64,
                ink: Color::rgba(0, 0, 0, 80),
            }).spec_shade(acc, px, py),
            px,
            py,
        )
    }

    /// The pixel `(px, py)` once an index has been drawn over `acc` with the
    /// top-left corner of its line at `(x, y)`: a shadow two pixels down and right, then
    /// the index in white.
    pub open spec fn spec_index_over(run: &GlyphRun, acc: Color, px: int, py: int, x: i64, y: i64) -> Color {
        (GlyphLayer {
            mask: &run.mask,
            x: (x - run.left) as i64,
            y: (y - run.top) as i64,
            ink: Color::rgba(255, 255, 255, 255),
        }).spec_shade(
            (GlyphLayer {
                mask: &run.mask,
                x: (x + 2 - run.left) as i64,
                y: (y + 2 - run.top) as i64,
                ink: Color::rgba(0, 0, 0, 100),
            }).spec_shade(acc, px, py),
            px,
            py,
        )
    }

    /// The pixel `(px, py)` of the finished card.
    pub open spec fn spec_pixel(&self, width: u32, height: u32, glyphs: &CardGlyphs, px: int, py: int) -> Color {
        Card::spec_index_over(
            glyphs.corner,
            Card::spec_index_over(
                glyphs.corner,
                self.spec_symbol_over(
                    width,
                    height,
                    glyphs.centre,
                    self.spec_blank_pixel(width, height, px, py),
                    px,
                    py,
                ),
                px,
                py,
                Card::spec_margin(width) as i64,
                Card::spec_margin(width) as i64,
            ),
            px,
            py,
            Card::spec_far_corner_x(width, glyphs.corner),
            Card::spec_far_corner_y(width, height),
        )
    }

    fn draw_index(img: &mut Canvas, run: &GlyphRun, x: i64, y: i64)
        requires
            -0x100_0000_0000 <= x <= 0x100_0000_0000,
            -0x100_0000_0000 <= y <= 0x100_0000_0000,
        ensures
            final(img).spec_width() == old(img).spec_width(),
            final(img).spec_height() == old(img).spec_height(),
            forall|i: int, j: int|
                final(img).contains(i, j) ==> #[trigger] final(img).at(i, j)
                    == Card::spec_index_over(run, old(img).at(i, j), i, j, x, y),
    {
        draw_glyphs(
            img,
            &run.mask,
            x + 2 - run.left as i64,
            y + 2 - run.top as i64,
            Color::rgba(0, 0, 0, 100),
        );
        draw_glyphs(
            img,
            &run.mask,
            x - run.left as i64,
            y - run.top as i64,
            Color::rgba(255, 255, 255, 255),
        );
    }

    /// The card as an image of `width` × `height`: back to front the drop
    /// shadow, the white border, the coloured body, the white oval, the
    /// symbol in the middle and the index in two opposite corners.
#[verifier::rlimit(50)]
    pub fn render(&self, width: u32, height: u32, glyphs: &CardGlyphs) -> (img: Canvas)
        requires
            fits_memory(width as int, height as int),
        ensures
            img.spec_width() == width,
            img.spec_height() == height,
            forall|x: int, y: int|
                img.contains(x, y) ==> #[trigger] img.at(x, y) == self.spec_pixel(
                    width,
                    height,
                    glyphs,
                    x,
                    y,
                ),
    {
        let mut img = Canvas::new(width, height);
        Card::draw_shadow(&mut img, width, height);
        let border = Card::border(width, height);
        rounded_rect(&mut img, border.x, border.y, border.w, border.h, border.radius, border.color);
        let body = self.body(width, height);
        img.paint(&body);
        let oval = DiagonalOval { width, height };
        img.paint(&oval);
        let sx: i32 = Card::symbol_x(width, glyphs.centre);
        let sy: i32 = Card::symbol_y(height, glyphs.centre);
        draw_glyphs(
            &mut img,
            &glyphs.centre.mask,
            sx as i64 + 3 - glyphs.centre.left as i64,
            sy as i64 + 3 - glyphs.centre.top as i64,
            Color::rgba(0, 0, 0, 80),
        );
        draw_glyphs(
            &mut img,
            &glyphs.centre.mask,
            sx as i64 - glyphs.centre.left as i64,
            sy as i64 - glyphs.centre.top as i64,
            self.symbol_color(),
        );
        let margin: i32 = Card::margin(width);
        Card::draw_index(&mut img, glyphs.corner, margin as i64, margin as i64);
        Card::draw_index(
            &mut img,
            glyphs.corner,
            Card::far_corner_x(width, glyphs.corner),
            Card::far_corner_y(width, height),
        );
        img
    }

    /// The pixel `(px, py)` once the card has been composited over `acc`
    /// with its top-left corner at `(x0, y0)`.
    pub open spec fn spec_card_over(
        &self,
        width: u32,
        height: u32,
        glyphs: &CardGlyphs,
        acc: Color,
        px: int,
        py: int,
        x0: int,
        y0: int,
    ) -> Color {
        if 0 <= px - x0 < width && 0 <= py - y0 < height {
            spec_paint_over(self.spec_pixel(width, height, glyphs, px - x0, py - y0), acc)
        } else {
            acc
        }
    }

    /// Renders the card and composites it onto `dest` at `(x, y)`.
#[verifier::rlimit(50)]
    pub fn stamp(&self, dest: &mut Canvas, width: u32, height: u32, glyphs: &CardGlyphs, x: i32, y: i32)
        requires
            fits_memory(width as int, height as int),
        ensures
            final(dest).spec_width() == old(dest).spec_width(),
            final(dest).spec_height() == old(dest).spec_height(),
            forall|i: int, j: int|
                final(dest).contains(i, j) ==> #[trigger] final(dest).at(i, j)
                    == self.spec_card_over(
                    width,
                    height,
                    glyphs,
                    old(dest).at(i, j),
                    i,
                    j,
                    x as int,
                    y as int,
                ),
    {
        let card_img = self.render(width, height, glyphs);
        proof {
            lemma_whole_layers_paint_over();
        }
        dest.composite(&card_img, x, y);
    }

    /// The layer of the halo of index `i` out of `glow_size`: each lies one pixel
    /// further in than the one before, and its alpha falls with the square of its
    /// distance from the card.
    pub open spec fn spec_glow_layer(width: u32, height: u32, glow_color: Color, glow_size: u32, i: u32) -> RoundedRect {
        RoundedRect {
            x: Fixed::from_int(i as i64).pixels(),
            y: Fixed::from_int(i as i64).pixels(),
            w: shrink(grow(width, grow(glow_size, glow_size)), grow(i, i)),
            h: shrink(grow(height, grow(glow_size, glow_size)), grow(i, i)),
            radius: Fixed::from_int(
                (Card::corner_radius(width, height) as i64 + shrink(glow_size, i) as i64) as i64,
            ).pixels(),
            color: glow_color.with_alpha(
                Fixed::ratio(shrink(glow_size, i) as i64, glow_size as i64).times(
                    Fixed::ratio(shrink(glow_size, i) as i64, glow_size as i64),
                ).times(Fixed::from_int(180)).channel(),
            ),
        }
    }

    #[verifier::when_used_as_spec(spec_glow_layer)]
    pub fn glow_layer(width: u32, height: u32, glow_color: Color, glow_size: u32, i: u32) -> (r: RoundedRect)
        ensures
            r == Card::spec_glow_layer(width, height, glow_color, glow_size, i),
    {
        RoundedRect {
            x: Fixed::from_int(i as i64).pixels(),
            y: Fixed::from_int(i as i64).pixels(),
            w: shrink(grow(width, grow(glow_size, glow_size)), grow(i, i)),
            h: shrink(grow(height, grow(glow_size, glow_size)), grow(i, i)),
            radius: Fixed::from_int(
                (Card::corner_radius(width, height) as i64 + shrink(glow_size, i) as i64) as i64,
            ).pixels(),
            color: glow_color.with_alpha(
                Fixed::ratio(shrink(glow_size, i) as i64, glow_size as i64).times(
                    Fixed::ratio(shrink(glow_size, i) as i64, glow_size as i64),
                ).times(Fixed::from_int(180)).channel(),
            ),
        }
    }

    /// The pixel `(px, py)` after the first `n` layers of the halo.
    pub open spec fn spec_halo(
        width: u32,
        height: u32,
        glow_color: Color,
        glow_size: u32,
        acc: Color,
        px: int,
        py: int,
        n: nat,
    ) -> Color
        decreases n,
    {
        if n == 0 || n > u32::MAX {
            acc
        } else {
            Card::spec_glow_layer(width, height, glow_color, glow_size, (n - 1) as u32).spec_shade(
                Card::spec_halo(width, height, glow_color, glow_size, acc, px, py, (n - 1) as nat),
                px,
                py,
            )
        }
    }

    /// The card with a halo of `glow_size` pixels around it, on a canvas that
    /// much larger on every side.
#[verifier::rlimit(50)]
    pub fn render_with_glow(
        &self,
        width: u32,
        height: u32,
        glow_color: Color,
        glow_size: u32,
        glyphs: &CardGlyphs,
    ) -> (img: Canvas)
        requires
            glow_size <= i32::MAX,
            width + 2 * glow_size <= u32::MAX,
            height + 2 * glow_size <= u32::MAX,
            fits_memory(width + 2 * glow_size, height + 2 * glow_size),
            fits_memory(width as int, height as int),
        ensures
            img.spec_width() == width + 2 * glow_size,
            img.spec_height() == height + 2 * glow_size,
            forall|x: int, y: int|
                img.contains(x, y) ==> #[trigger] img.at(x, y) == self.spec_card_over(
                    width,
                    height,
                    glyphs,
                    Card::spec_halo(
                        width,
                        height,
                        glow_color,
                        glow_size,
                        Color::transparent(),
                        x,
                        y,
                        glow_size as nat,
                    ),
                    x,
                    y,
                    glow_size as int,
                    glow_size as int,
                ),
    {
        let mut img = Canvas::new(width + 2 * glow_size, height + 2 * glow_size);
        let mut i: u32 = 0;
        while i < glow_size
            invariant
                i <= glow_size,
                img.spec_width() == width + 2 * glow_size,
                img.spec_height() == height + 2 * glow_size,
                forall|x: int, y: int|
                    img.contains(x, y) ==> #[trigger] img.at(x, y) == Card::spec_halo(
                        width,
                        height,
                        glow_color,
                        glow_size,
                        Color::transparent(),
                        x,
                        y,
                        i as nat,
                    ),
            decreases glow_size - i,
        {
            let layer = Card::glow_layer(width, height, glow_color, glow_size, i);
            rounded_rect(&mut img, layer.x, layer.y, layer.w, layer.h, layer.radius, layer.color);
            i = i + 1;
        }
        self.stamp(&mut img, width, height, glyphs, glow_size as i32, glow_size as i32);
        img
    }
}

/// Makes the cards of the game.
pub struct CardFactory;

impl CardFactory {
    pub fn plus_two(color: CardColor) -> (c: Card)
        ensures
            c == Card::new(color, CardType::DrawTwo),
    {
        Card::new(color, CardType::DrawTwo)
    }

    pub fn plus_four(color: CardColor) -> (c: Card)
        ensures
            c == Card::new(color, CardType::DrawFour),
    {
        Card::new(color, CardType::DrawFour)
    }

    pub fn plus_six() -> (c: Card)
        ensures
            c == Card::new(CardColor::Wild, CardType::DrawSix),
    {
        Card::new(CardColor::Wild, CardType::DrawSix)
    }

    pub fn plus_ten() -> (c: Card)
        ensures
            c == Card::new(CardColor::Wild, CardType::DrawTen),
    {
        Card::new(CardColor::Wild, CardType::DrawTen)
    }

    pub fn skip(color: CardColor) -> (c: Card)
        ensures
            c == Card::new(color, CardType::Skip),
    {
        Card::new(color, CardType::Skip)
    }

    pub fn skip_everyone() -> (c: Card)
        ensures
            c == Card::new(CardColor::Wild, CardType::SkipEveryone),
    {
        Card::new(CardColor::Wild, CardType::SkipEveryone)
    }

    pub fn reverse(color: CardColor) -> (c: Card)
        ensures
            c == Card::new(color, CardType::Reverse),
    {
        Card::new(color, CardType::Reverse)
    }

    pub fn reverse_draw_four() -> (c: Card)
        ensures
            c == Card::new(CardColor::Wild, CardType::ReverseDrawFour),
    {
        Card::new(CardColor::Wild, CardType::ReverseDrawFour)
    }

    pub fn discard_all(color: CardColor) -> (c: Card)
        ensures
            c == Card::new(color, CardType::DiscardAll),
    {
        Card::new(color, CardType::DiscardAll)
    }

    pub fn color_roulette() -> (c: Card)
        ensures
            c == Card::new(CardColor::Wild, CardType::ColorRoulette),
    {
        Card::new(CardColor::Wild, CardType::ColorRoulette)
    }

    pub open spec fn spec_number(color: CardColor, num: u8) -> Card {
        Card::new(color, CardType::Number(if num > 9 {
            9
        } else {
            num
        }))
    }

    /// The number card of the colour given; a number above nine counts as
    /// nine.
    #[verifier::when_used_as_spec(spec_number)]
    pub fn number(color: CardColor, num: u8) -> (c: Card)
        ensures
            c == CardFactory::spec_number(color, num),
    {
        Card::new(color, CardType::Number(if num > 9 {
            9
        } else {
            num
        }))
    }
}

/// A card together with its rasterised text.
pub struct PrintedCard<'a> {
    pub card: Card,
    pub glyphs: CardGlyphs<'a>,
}

/// One card of a scatter of flying cards: what it shows, how large it is
/// drawn and where.
#[derive(Debug, Clone, Copy, PartialEq, Eq, Structural)]
pub struct FlyingCard {
    pub card: Card,
    pub width: u32,
    pub height: u32,
    pub x: i32,
    pub y: i32,
}

/// A flying card together with its rasterised text.
pub struct PrintedFlyingCard<'a> {
    pub place: FlyingCard,
    pub glyphs: CardGlyphs<'a>,
}

/// The colour of a flying card for a draw from `0 .. 4`.
pub open spec fn spec_flying_color(v: u32) -> CardColor {
    if v == 0 {
        CardColor::Red
    } else if v == 1 {
        CardColor::Blue
    } else if v == 2 {
        CardColor::Green
    } else {
        CardColor::Yellow
    }
}

#[verifier::when_used_as_spec(spec_flying_color)]
pub fn flying_color(v: u32) -> (c: CardColor)
    ensures
        c == spec_flying_color(v),
{
    if v == 0 {
        CardColor::Red
    } else if v == 1 {
        CardColor::Blue
    } else if v == 2 {
        CardColor::Green
    } else {
        CardColor::Yellow
    }
}

/// A side of a flying card: the side of a full card scaled to between 30%
/// and 70% by a draw from `0 .. 400`.
pub open spec fn spec_flying_side(full: u32, v: u32) -> u32 {
    Fixed::from_int(full as i64).times(Fixed::ratio((300 + v % 400) as i64, 1000)).extent()
}

#[verifier::when_used_as_spec(spec_flying_side)]
pub fn flying_side(full: u32, v: u32) -> (r: u32)
    ensures
        r == spec_flying_side(full, v),
{
    Fixed::from_int(full as i64).times(Fixed::ratio((300 + v % 400) as i64, 1000)).extent()
}

/// The number of places along one side of the canvas where a flying card of
/// the side `small` can start, at least one.
pub open spec fn spec_flying_room(canvas: u32, small: u32) -> u32 {
    if shrink(canvas, small) < 1 {
        1
    } else {
        shrink(canvas, small)
    }
}

#[verifier::when_used_as_spec(spec_flying_room)]
pub fn flying_room(canvas: u32, small: u32) -> (r: u32)
    ensures
        r == spec_flying_room(canvas, small),
        r > 0,
{
    if shrink(canvas, small) < 1 {
        1
    } else {
        shrink(canvas, small)
    }
}

/// `v` as a signed coordinate, capped at the largest one.
pub open spec fn spec_coordinate(v: u32) -> i32 {
    if v > i32::MAX as u32 {
        i32::MAX
    } else {
        v as i32
    }
}

#[verifier::when_used_as_spec(spec_coordinate)]
pub fn coordinate(v: u32) -> (r: i32)
    ensures
        r == spec_coordinate(v),
{
    if v > i32::MAX as u32 {
        i32::MAX
    } else {
        v as i32
    }
}

/// The flying card that a generator in the state `state` deals onto a
/// canvas of four card widths by four card heights, and the state of the
/// generator afterwards. Five numbers are drawn in turn: colour, number,
/// scale, column and row.
pub open spec fn spec_deal(state: Seq<u8>, card_width: u32, card_height: u32) -> (FlyingCard, Seq<u8>) {
    let color = draw_below(state, 4);
    let num = draw_below(color.1, 10);
    let scale = draw_below(num.1, 400);
    let width = spec_flying_side(card_width, scale.0);
    let height = spec_flying_side(card_height, scale.0);
    let x = draw_below(scale.1, spec_flying_room(grow(grow(card_width, card_width), grow(card_width, card_width)), width));
    let y = draw_below(x.1, spec_flying_room(grow(grow(card_height, card_height), grow(card_height, card_height)), height));
    (
        FlyingCard {
            card: CardFactory::number(spec_flying_color(color.0), (num.0 % 256) as u8),
            width,
            height,
            x: spec_coordinate(x.0),
            y: spec_coordinate(y.0),
        },
        y.1,
    )
}

/// The first `n` flying cards that a generator in the state `state` deals,
/// and the state of the generator afterwards.
pub open spec fn spec_deal_many(state: Seq<u8>, card_width: u32, card_height: u32, n: nat) -> (Seq<FlyingCard>, Seq<u8>)
    decreases n,
{
    if n == 0 {
        (Seq::<FlyingCard>::empty(), state)
    } else {
        let before = spec_deal_many(state, card_width, card_height, (n - 1) as nat);
        let next = spec_deal(before.1, card_width, card_height);
        (before.0.push(next.0), next.1)
    }
}

/// A stack of no cards has the extent of one card and nothing drawn on it,
/// whatever the extent of a card and the offset.
pub proof fn lemma_empty_stack_is_one_blank_card(
    cards: Seq<PrintedCard>,
    card_width: u32,
    card_height: u32,
    offset: i32,
    px: int,
    py: int,
)
    requires
        cards.len() == 0,
    ensures
        CardRenderer::spec_stack_side(card_width, offset, cards.len()) == card_width,
        CardRenderer::spec_stack_side(card_height, offset, cards.len()) == card_height,
        CardRenderer::spec_stack(
            cards,
            card_width,
            card_height,
            offset,
            Color::transparent(),
            px,
            py,
            cards.len(),
        ) == Color::transparent(),
{
}

/// Arranges several cards in one image.
pub struct CardRenderer;

impl CardRenderer {
    /// Composites `src` onto `dest` with its top-left corner at `(x, y)`.
    pub fn composite_image(dest: &mut Canvas, src: &Canvas, x: i32, y: i32)
        ensures
            final(dest).spec_width() == old(dest).spec_width(),
            final(dest).spec_height() == old(dest).spec_height(),
            forall|i: int, j: int|
                final(dest).contains(i, j) ==> #[trigger] final(dest).at(i, j) == (Overlay {
                    layer: src,
                    x,
                    y,
                    alpha: Fixed::one(),
                }).spec_shade(old(dest).at(i, j), i, j),
    {
        dest.composite(src, x, y);
    }

    /// Length of one side of the image of a stack of `n` cards.
    pub open spec fn spec_stack_side(card_side: u32, offset: i32, n: nat) -> int {
        if n == 0 {
            card_side as int
        } else {
            card_side + spec_reach(offset) * (n - 1)
        }
    }

    /// The pixel `(px, py)` after the first `n` cards of a stack.
    pub open spec fn spec_stack(
        cards: Seq<PrintedCard>,
        card_width: u32,
        card_height: u32,
        offset: i32,
        acc: Color,
        px: int,
        py: int,
        n: nat,
    ) -> Color
        decreases n,
    {
        if n == 0 || n > cards.len() {
            acc
        } else {
            cards[n - 1].card.spec_card_over(
                card_width,
                card_height,
                &cards[n - 1].glyphs,
                CardRenderer::spec_stack(
                    cards,
                    card_width,
                    card_height,
                    offset,
                    acc,
                    px,
                    py,
                    (n - 1) as nat,
                ),
                px,
                py,
                (n - 1) * spec_reach(offset),
                (n - 1) * spec_reach(offset),
            )
        }
    }

    /// A stack of cards, each moved down and right by the magnitude of
    /// `offset` from the one below it. No cards give a blank image of the
    /// extent of one card.
#[verifier::rlimit(50)]
    pub fn render_stack(cards: &Vec<PrintedCard>, card_width: u32, card_height: u32, offset: i32) -> (img: Canvas)
        requires
            cards@.len() > 0 ==> CardRenderer::spec_stack_side(card_width, offset, cards@.len())
                <= i32::MAX && CardRenderer::spec_stack_side(card_height, offset, cards@.len())
                <= i32::MAX && fits_memory(
                CardRenderer::spec_stack_side(card_width, offset, cards@.len()),
                CardRenderer::spec_stack_side(card_height, offset, cards@.len()),
            ),
            fits_memory(card_width as int, card_height as int),
        ensures
            img.spec_width() == CardRenderer::spec_stack_side(card_width, offset, cards@.len()),
            img.spec_height() == CardRenderer::spec_stack_side(
                card_height,
                offset,
                cards@.len(),
            ),
            forall|x: int, y: int|
                img.contains(x, y) ==> #[trigger] img.at(x, y) == CardRenderer::spec_stack(
                    cards@,
                    card_width,
                    card_height,
                    offset,
                    Color::transparent(),
                    x,
                    y,
                    cards@.len(),
                ),
    {
        let n: usize = cards.len();
        if n == 0 {
            return Canvas::new(card_width, card_height);
        }
        let step: u32 = reach(offset);
        assert(0 <= step * (n - 1) <= i32::MAX) by (nonlinear_arith)
            requires
                card_width + step * (n - 1) <= i32::MAX,
                n >= 1,
                step >= 0,
                card_width >= 0,
        ;
        let spread: u32 = (step as u64 * (n as u64 - 1)) as u32;
        let mut img = Canvas::new(card_width + spread, card_height + spread);
        let mut i: usize = 0;
        while i < n
            invariant
                i <= n,
                n == cards@.len(),
                step == spec_reach(offset),
                0 <= step * (n - 1) <= i32::MAX,
                fits_memory(card_width as int, card_height as int),
                img.spec_width() == card_width + spread,
                img.spec_height() == card_height + spread,
                forall|x: int, y: int|
                    img.contains(x, y) ==> #[trigger] img.at(x, y) == CardRenderer::spec_stack(
                        cards@,
                        card_width,
                        card_height,
                        offset,
                        Color::transparent(),
                        x,
                        y,
                        i as nat,
                    ),
            decreases n - i,
        {
            assert(0 <= i * step <= step * (n - 1)) by (nonlinear_arith)
                requires
                    0 <= i <= n - 1,
                    step >= 0,
            ;
            let at: i32 = (i as u64 * step as u64) as i32;
            let printed = &cards[i];
            printed.card.stamp(&mut img, card_width, card_height, &printed.glyphs, at, at);
            i = i + 1;
        }
        img
    }

    /// Side of the square canvas of a fan: two and a half times the longer side
    /// of a card.
    pub open spec fn spec_fan_side(card_width: u32, card_height: u32) -> u32 {
        Fixed::from_int(if card_width > card_height {
            card_width as i64
        } else {
            card_height as i64
        }).times(Fixed::millionths(2_500_000)).extent()
    }

    #[verifier::when_used_as_spec(spec_fan_side)]
    pub fn fan_side(card_width: u32, card_height: u32) -> (r: u32)
        ensures
            r == CardRenderer::spec_fan_side(card_width, card_height),
    {
        Fixed::from_int(if card_width > card_height {
            card_width as i64
        } else {
            card_height as i64
        }).times(Fixed::millionths(2_500_000)).extent()
    }
    /// Angle of the card of index `i` out of `n` in a fan that spreads over
    /// `spread_angle` radians: from minus half the spread in equal steps.
    pub open spec fn spec_fan_angle(spread_angle: Fixed, n: usize, i: usize) -> Fixed {
        spread_angle.negated().over(Fixed::from_int(2)).plus(
            if n > 1 {
                spread_angle.over(count_fixed((n - 1) as usize))
            } else {
                Fixed::zero()
            }.times(count_fixed(i)),
        )
    }

    #[verifier::when_used_as_spec(spec_fan_angle)]
    pub fn fan_angle(spread_angle: Fixed, n: usize, i: usize) -> (r: Fixed)
        ensures
            r == CardRenderer::spec_fan_angle(spread_angle, n, i),
    {
        spread_angle.negated().over(Fixed::from_int(2)).plus(
            if n > 1 {
                spread_angle.over(count_fixed((n - 1) as usize))
            } else {
                Fixed::zero()
            }.times(count_fixed(i)),
        )
    }
    /// Column of the left edge of a fanned card at the given angle: the middle of
    /// the canvas, less half a card, plus 80% of a card width times the sine of
    /// the angle.
    pub open spec fn spec_fan_x(card_width: u32, card_height: u32, angle: Fixed) -> i32 {
        Fixed::from_int(
            (Fixed::ratio(CardRenderer::fan_side(card_width, card_height) as i64, 2).pixels() as i64
                - (card_width / 2) as i64) as i64,
        ).plus(
            Fixed::from_int(
                angle.sine().times(Fixed::from_int(card_width as i64)).times(
                    Fixed::millionths(800_000),
                ).pixels() as i64,
            ),
        ).pixels()
    }

    #[verifier::when_used_as_spec(spec_fan_x)]
    pub fn fan_x(card_width: u32, card_height: u32, angle: Fixed) -> (r: i32)
        ensures
            r == CardRenderer::spec_fan_x(card_width, card_height, angle),
    {
        Fixed::from_int(
            (Fixed::ratio(CardRenderer::fan_side(card_width, card_height) as i64, 2).pixels() as i64
                - (card_width / 2) as i64) as i64,
        ).plus(
            Fixed::from_int(
                angle.sine().times(Fixed::from_int(card_width as i64)).times(
                    Fixed::millionths(800_000),
                ).pixels() as i64,
            ),
        ).pixels()
    }
    /// Row of the top edge of a fanned card: 80% down the canvas, less the height
    /// of a card.
    pub open spec fn spec_fan_y(card_width: u32, card_height: u32) -> i32 {
        Fixed::from_int(
            (Fixed::from_int(CardRenderer::fan_side(card_width, card_height) as i64).times(
                Fixed::millionths(800_000),
            ).pixels() as i64 - card_height as i64) as i64,
        ).pixels()
    }

    #[verifier::when_used_as_spec(spec_fan_y)]
    pub fn fan_y(card_width: u32, card_height: u32) -> (r: i32)
        ensures
            r == CardRenderer::spec_fan_y(card_width, card_height),
    {
        Fixed::from_int(
            (Fixed::from_int(CardRenderer::fan_side(card_width, card_height) as i64).times(
                Fixed::millionths(800_000),
            ).pixels() as i64 - card_height as i64) as i64,
        ).pixels()
    }

    /// The pixel `(px, py)` after the first `n` cards of a fan.
    pub open spec fn spec_fan(
        cards: Seq<PrintedCard>,
        card_width: u32,
        card_height: u32,
        spread_angle: Fixed,
        acc: Color,
        px: int,
        py: int,
        n: nat,
    ) -> Color
        decreases n,
    {
        if n == 0 || n > cards.len() || cards.len() > usize::MAX {
            acc
        } else {
            cards[n - 1].card.spec_card_over(
                card_width,
                card_height,
                &cards[n - 1].glyphs,
                CardRenderer::spec_fan(
                    cards,
                    card_width,
                    card_height,
                    spread_angle,
                    acc,
                    px,
                    py,
                    (n - 1) as nat,
                ),
                px,
                py,
                CardRenderer::spec_fan_x(
                    card_width,
                    card_height,
                    CardRenderer::spec_fan_angle(
                        spread_angle,
                        cards.len() as usize,
                        (n - 1) as usize,
                    ),
                ) as int,
                CardRenderer::spec_fan_y(card_width, card_height) as int,
            )
        }
    }

    /// A fan of cards on a square canvas: the cards are spread sideways by
    /// the sine of their angle and are not turned. No cards give a blank
    /// image of the extent of one card.
#[verifier::rlimit(50)]
    pub fn render_fan(cards: &Vec<PrintedCard>, card_width: u32, card_height: u32, spread_angle: Fixed) -> (img: Canvas)
        requires
            fits_memory(card_width as int, card_height as int),
            cards@.len() > 0 ==> fits_memory(
                CardRenderer::spec_fan_side(card_width, card_height) as int,
                CardRenderer::spec_fan_side(card_width, card_height) as int,
            ),
        ensures
            cards@.len() == 0 ==> img.spec_width() == card_width && img.spec_height()
                == card_height && img.is_blank(),
            cards@.len() > 0 ==> img.spec_width() == CardRenderer::spec_fan_side(
                card_width,
                card_height,
            ) && img.spec_height() == CardRenderer::spec_fan_side(card_width, card_height),
            cards@.len() > 0 ==> forall|x: int, y: int|
                img.contains(x, y) ==> #[trigger] img.at(x, y) == CardRenderer::spec_fan(
                    cards@,
                    card_width,
                    card_height,
                    spread_angle,
                    Color::transparent(),
                    x,
                    y,
                    cards@.len(),
                ),
    {
        let n: usize = cards.len();
        if n == 0 {
            return Canvas::new(card_width, card_height);
        }
        let side: u32 = CardRenderer::fan_side(card_width, card_height);
        let mut img = Canvas::new(side, side);
        let y: i32 = CardRenderer::fan_y(card_width, card_height);
        let mut i: usize = 0;
        while i < n
            invariant
                i <= n,
                n == cards@.len(),
                side == CardRenderer::spec_fan_side(card_width, card_height),
                y == CardRenderer::spec_fan_y(card_width, card_height),
                fits_memory(card_width as int, card_height as int),
                img.spec_width() == side,
                img.spec_height() == side,
                forall|x: int, y: int|
                    img.contains(x, y) ==> #[trigger] img.at(x, y) == CardRenderer::spec_fan(
                        cards@,
                        card_width,
                        card_height,
                        spread_angle,
                        Color::transparent(),
                        x,
                        y,
                        i as nat,
                    ),
            decreases n - i,
        {
            let angle = CardRenderer::fan_angle(spread_angle, n, i);
            let x: i32 = CardRenderer::fan_x(card_width, card_height, angle);
            let printed = &cards[i];
            printed.card.stamp(&mut img, card_width, card_height, &printed.glyphs, x, y);
            i = i + 1;
        }
        img
    }

    /// Deals one flying card from the generator.
    pub fn deal(rng: &mut SeededRng, card_width: u32, card_height: u32) -> (card: FlyingCard)
        ensures
            card == spec_deal(old(rng).state(), card_width, card_height).0,
            final(rng).state() == spec_deal(old(rng).state(), card_width, card_height).1,
    {
        let color: u32 = rng.below(4);
        let num: u32 = rng.below(10);
        let scale: u32 = rng.below(400);
        let width: u32 = flying_side(card_width, scale);
        let height: u32 = flying_side(card_height, scale);
        let canvas_width: u32 = grow(grow(card_width, card_width), grow(card_width, card_width));
        let canvas_height: u32 = grow(
            grow(card_height, card_height),
            grow(card_height, card_height),
        );
        let x: u32 = rng.below(flying_room(canvas_width, width));
        let y: u32 = rng.below(flying_room(canvas_height, height));
        FlyingCard {
            card: CardFactory::number(flying_color(color), (num % 256) as u8),
            width,
            height,
            x: coordinate(x),
            y: coordinate(y),
        }
    }

    /// The scatter of `num_cards` flying cards that follows from `seed`:
    /// number cards in the four colours, each at 30% to 70% of the full size
    /// and somewhere on a canvas of four cards by four.
#[verifier::rlimit(50)]
    pub fn plan_flying_cards(card_width: u32, card_height: u32, num_cards: usize, seed: u64) -> (plan: Vec<FlyingCard>)
        ensures
            plan@ == spec_deal_many(
                seeded_state(seed),
                card_width,
                card_height,
                num_cards as nat,
            ).0,
    {
        let mut rng = SeededRng::new(seed);
        let mut plan: Vec<FlyingCard> = Vec::new();
        let mut i: usize = 0;
        while i < num_cards
            invariant
                i <= num_cards,
                plan@ == spec_deal_many(seeded_state(seed), card_width, card_height, i as nat).0,
                rng.state() == spec_deal_many(
                    seeded_state(seed),
                    card_width,
                    card_height,
                    i as nat,
                ).1,
            decreases num_cards - i,
        {
            let card = CardRenderer::deal(&mut rng, card_width, card_height);
            plan.push(card);
            i = i + 1;
        }
        plan
    }

    /// The pixel `(px, py)` after the first `n` flying cards.
    pub open spec fn spec_flying(cards: Seq<PrintedFlyingCard>, acc: Color, px: int, py: int, n: nat) -> Color
        decreases n,
    {
        if n == 0 || n > cards.len() {
            acc
        } else if fits_memory(cards[n - 1].place.width as int, cards[n - 1].place.height as int) {
            cards[n - 1].place.card.spec_card_over(
                cards[n - 1].place.width,
                cards[n - 1].place.height,
                &cards[n - 1].glyphs,
                CardRenderer::spec_flying(cards, acc, px, py, (n - 1) as nat),
                px,
                py,
                cards[n - 1].place.x as int,
                cards[n - 1].place.y as int,
            )
        } else {
            CardRenderer::spec_flying(cards, acc, px, py, (n - 1) as nat)
        }
    }

    /// The flying cards given, drawn in turn onto a transparent canvas of
    /// four card widths by four card heights. A card too large to allocate
    /// is left out.
#[verifier::rlimit(50)]
    pub fn render_flying_cards(card_width: u32, card_height: u32, cards: &Vec<PrintedFlyingCard>) -> (img: Canvas)
        requires
            4 * card_width <= u32::MAX,
            4 * card_height <= u32::MAX,
            fits_memory(4 * card_width, 4 * card_height),
        ensures
            img.spec_width() == 4 * card_width,
            img.spec_height() == 4 * card_height,
            forall|x: int, y: int|
                img.contains(x, y) ==> #[trigger] img.at(x, y) == CardRenderer::spec_flying(
                    cards@,
                    Color::transparent(),
                    x,
                    y,
                    cards@.len(),
                ),
    {
        let mut img = Canvas::new(4 * card_width, 4 * card_height);
        let n: usize = cards.len();
        let mut i: usize = 0;
        while i < n
            invariant
                i <= n,
                n == cards@.len(),
                img.spec_width() == 4 * card_width,
                img.spec_height() == 4 * card_height,
                forall|x: int, y: int|
                    img.contains(x, y) ==> #[trigger] img.at(x, y) == CardRenderer::spec_flying(
                        cards@,
                        Color::transparent(),
                        x,
                        y,
                        i as nat,
                    ),
            decreases n - i,
        {
            let printed = &cards[i];
            if can_allocate(printed.place.width, printed.place.height) {
                printed.place.card.stamp(
                    &mut img,
                    printed.place.width,
                    printed.place.height,
                    &printed.glyphs,
                    printed.place.x,
                    printed.place.y,
                );
            }
            i = i + 1;
        }
        img
    }
}

} // verus!
