//! The scene timeline: what is on screen at each instant, as a list of
//! layers, and the composer that turns the list into a frame.

use vstd::prelude::*;
use vstd::string::*;
use crate::canvas::{
    can_allocate, fits_memory, grid, lemma_view_of, resampled_pixels, spec_laid_over, Canvas, PixelRule,
};
use crate::cards::{
    spec_deal_many, Card, CardColor, CardFactory, CardGlyphs, CardRenderer, CardType, FlyingCard,
    PrintedCard, PrintedFlyingCard,
};
use crate::character::{Character, Expression};
use crate::color::Color;
use crate::effects::{
    spec_overlay_alpha, Easing, EnergyWave, Fade, Flash, Glow, GlowModel, Particles, PopIn,
    ScreenShake, Slide, Sparkles,
};
use crate::cards::flying_color;
use crate::fixed::{div_trunc, fx_div, Fixed, SCALE};
use crate::random::seeded_state;
use crate::text::{text_image_fits, AnimatedText, GlyphRun, TextRenderer, TextStyle};
use crate::video::{
    near_one, scaled_side, spec_near_one, spec_scaled_side, Backgrounds, DarkBase, FrameComposer,
    SolidVignette,
};

verus! {

/// How far a window of time has run, as an exact fraction: `passed` out of
/// `length`. Nothing is `0 / 1` and all of it is `1 / 1`.
#[derive(Debug, Clone, Copy, PartialEq, Eq, Structural)]
pub struct Progress {
    pub passed: u64,
    pub length: u64,
}

proof fn lemma_cross_product_fits(a: u64, b: u64)
    by (nonlinear_arith)
    ensures
        0 <= a * b <= 0xffff_ffff_ffff_ffff * 0xffff_ffff_ffff_ffff,
{
}

impl Progress {
    /// The fraction is one: it has a length, and no more has passed than
    /// that.
    pub open spec fn wf(&self) -> bool {
        0 < self.length && self.passed <= self.length
    }

    pub open spec fn spec_zero() -> Progress {
        Progress { passed: 0, length: 1 }
    }

    /// Nothing of the window has passed.
    #[verifier::when_used_as_spec(spec_zero)]
    pub fn zero() -> (r: Progress)
        ensures
            r == Progress::spec_zero(),
    {
        Progress { passed: 0, length: 1 }
    }

    pub open spec fn spec_one() -> Progress {
        Progress { passed: 1, length: 1 }
    }

    /// All of the window has passed.
    #[verifier::when_used_as_spec(spec_one)]
    pub fn one() -> (r: Progress)
        ensures
            r == Progress::spec_one(),
    {
        Progress { passed: 1, length: 1 }
    }

    /// Whether this fraction is strictly less than `other`, by cross
    /// multiplication.
    pub open spec fn spec_below(self, other: Progress) -> bool {
        self.passed * other.length < other.passed * self.length
    }

    #[verifier::when_used_as_spec(spec_below)]
    pub fn below(self, other: Progress) -> (r: bool)
        ensures
            r == self.spec_below(other),
    {
        proof {
            lemma_cross_product_fits(self.passed, other.length);
            lemma_cross_product_fits(other.passed, self.length);
        }
        (self.passed as u128) * (other.length as u128) < (other.passed as u128) * (
        self.length as u128)
    }

    /// Whether this fraction is less than or equal to `other`, by cross
    /// multiplication.
    pub open spec fn spec_at_most(self, other: Progress) -> bool {
        self.passed * other.length <= other.passed * self.length
    }

    #[verifier::when_used_as_spec(spec_at_most)]
    pub fn at_most(self, other: Progress) -> (r: bool)
        ensures
            r == self.spec_at_most(other),
    {
        proof {
            lemma_cross_product_fits(self.passed, other.length);
            lemma_cross_product_fits(other.passed, self.length);
        }
        (self.passed as u128) * (other.length as u128) <= (other.passed as u128) * (
        self.length as u128)
    }

    /// The fraction to six decimals, rounded down and kept within
    /// `0 ..= 1`; a fraction of no length counts as nothing.
    pub open spec fn spec_fixed(self) -> Fixed {
        if self.length == 0 {
            Fixed::zero()
        } else if (self.passed * SCALE) / (self.length as int) > SCALE {
            Fixed::one()
        } else {
            Fixed { raw: ((self.passed * SCALE) / (self.length as int)) as i64 }
        }
    }

    #[verifier::when_used_as_spec(spec_fixed)]
    pub fn fixed(self) -> (r: Fixed)
        ensures
            r == self.spec_fixed(),
            0 <= r.raw <= SCALE,
    {
        if self.length == 0 {
            return Fixed::zero();
        }
        proof {
            assert(0 <= self.passed * SCALE <= 0xffff_ffff_ffff_ffff * SCALE) by (nonlinear_arith)
                requires
                    0 <= self.passed <= 0xffff_ffff_ffff_ffff,
                    SCALE == 1_000_000,
            ;
            assert(0 <= (self.passed * SCALE) / (self.length as int)) by (nonlinear_arith)
                requires
                    0 <= self.passed * SCALE,
                    0 < self.length,
            ;
        }
        let q: u128 = ((self.passed as u128) * 1_000_000) / (self.length as u128);
        if q > 1_000_000 {
            Fixed::one()
        } else {
            Fixed { raw: q as i64 }
        }
    }
}

/// A window of time, in seconds, that holds its start but not its end.
#[derive(Debug, Clone, Copy, PartialEq, Eq, Structural)]
pub struct SceneTiming {
    pub start: Fixed,
    pub end: Fixed,
}

impl SceneTiming {
    /// The window from `start` to `end`.
    pub open spec fn spec_new(start: Fixed, end: Fixed) -> SceneTiming {
        SceneTiming { start, end }
    }

    #[verifier::when_used_as_spec(spec_new)]
    pub fn new(start: Fixed, end: Fixed) -> (r: SceneTiming)
        ensures
            r == SceneTiming::spec_new(start, end),
    {
        SceneTiming { start, end }
    }
    /// Whether `time` falls into the window.
    pub open spec fn spec_contains(&self, time: Fixed) -> bool {
        self.start.at_most(time) && time.below(self.end)
    }

    #[verifier::when_used_as_spec(spec_contains)]
    pub fn contains(&self, time: Fixed) -> (r: bool)
        ensures
            r == self.spec_contains(time),
    {
        self.start.at_most(time) && time.below(self.end)
    }
    /// How far into the window `time` falls: nothing up to the start, all of
    /// it from the end on, and in between the time that has passed out of the
    /// length of the window, both as they are, with no rounding.
    pub open spec fn spec_progress(&self, time: Fixed) -> Progress {
        if time.raw < self.start.raw {
            Progress::zero()
        } else if self.end.raw <= time.raw {
            Progress::one()
        } else if time.raw == self.start.raw {
            Progress::zero()
        } else {
            Progress {
                passed: (time.raw - self.start.raw) as u64,
                length: (self.end.raw - self.start.raw) as u64,
            }
        }
    }

    #[verifier::when_used_as_spec(spec_progress)]
    pub fn progress(&self, time: Fixed) -> (r: Progress)
        ensures
            r == self.spec_progress(time),
            r.wf(),
    {
        if time.raw < self.start.raw {
            Progress::zero()
        } else if self.end.raw <= time.raw {
            Progress::one()
        } else if time.raw == self.start.raw {
            Progress::zero()
        } else {
            Progress {
                passed: (time.raw as i128 - self.start.raw as i128) as u64,
                length: (self.end.raw as i128 - self.start.raw as i128) as u64,
            }
        }
    }
}

/// A halo around a line of text.
#[derive(Debug, Clone, Copy, PartialEq, Eq, Structural)]
pub struct Halo {
    pub color: Color,
    pub radius: u32,
    pub intensity: Fixed,
}

/// What a layer shows.
#[derive(Debug, Clone, Copy)]
pub enum Source {
    DramaticDark { time: Fixed },
    SolidVignette { color: Color, strength: Fixed },
    UnoTheme { time: Fixed },
    Spotlight { x: Fixed, y: Fixed, intensity: Fixed },
    Chaos { time: Fixed, seed: u64 },
    Sparkles { count: u32, time: Fixed, seed: u64 },
    EnergyWave { time: Fixed, color: Color },
    Flash { intensity: Fixed },
    FadeFromBlack { progress: Fixed },
    FadeToBlack { progress: Fixed },
    Character { expression: Expression, scale: Fixed },
    Text { text: &'static str, size: Fixed, style: TextStyle, halo: Option<Halo> },
    Card { card: Card, width: u32, height: u32 },
    FlyingCards { width: u32, height: u32, cards: u8, seed: u64 },
    CardStack { first: Card, second: Card, width: u32, height: u32, offset: i32 },
}

/// Where a layer is put across the frame.
#[derive(Debug, Clone, Copy, PartialEq, Eq, Structural)]
pub enum Placement {
    /// With its left edge at the column given.
    At(i32),
    /// Centred in the span of `span` columns that starts at `base`.
    Within { base: i32, span: i32 },
}

impl Placement {
    /// Column of the left edge of a layer of the width given.
    pub open spec fn spec_resolve(&self, width: u32) -> i32 {
        match self {
            Placement::At(x) => *x,
            Placement::Within { base, span } => Fixed::from_int(
                (*base as i64 + div_trunc(*span as int - width as int, 2) as i64) as i64,
            ).pixels(),
        }
    }

    #[verifier::when_used_as_spec(spec_resolve)]
    pub fn resolve(&self, width: u32) -> (x: i32)
        ensures
            x == self.spec_resolve(width),
    {
        match self {
            Placement::At(x) => *x,
            Placement::Within { base, span } => {
                let d: i64 = *span as i64 - width as i64;
                let half: i64 = if d >= 0 {
                    d / 2
                } else {
                    -((-d) / 2)
                };
                Fixed::from_int(*base as i64 + half).pixels()
            },
        }
    }
}

/// One layer of a frame: what it shows, scaled by `scale`, where its
/// top-left corner lies and how much of its own alpha it keeps.
#[derive(Debug, Clone, Copy)]
pub struct Layer {
    pub source: Source,
    pub scale: Fixed,
    pub x: Placement,
    pub y: i32,
    pub alpha: Fixed,
}

/// A line of text that has to be rasterised before a frame can be drawn.
pub struct TextRequest {
    pub text: String,
    pub size: Fixed,
}

/// The card glyphs that start at the index `at` of `runs`.
pub open spec fn spec_glyphs_at(runs: Seq<GlyphRun>, at: int) -> CardGlyphs<'static> {
    CardGlyphs { centre: &runs[at], corner: &runs[at + 1] }
}

/// The flying cards of a plan with the glyph runs from the index `at` on,
/// two a card.
pub open spec fn spec_printed(plan: Seq<FlyingCard>, runs: Seq<GlyphRun>, at: int) -> Seq<PrintedFlyingCard<'static>> {
    Seq::new(
        plan.len(),
        |i: int| PrintedFlyingCard { place: plan[i], glyphs: spec_glyphs_at(runs, at + 2 * i) },
    )
}

/// The two cards of a stack with the glyph runs from the index `at` on.
pub open spec fn spec_stack_cards(first: Card, second: Card, runs: Seq<GlyphRun>, at: int) -> Seq<PrintedCard<'static>> {
    seq![
        PrintedCard { card: first, glyphs: spec_glyphs_at(runs, at) },
        PrintedCard { card: second, glyphs: spec_glyphs_at(runs, at + 2) },
    ]
}

impl Source {
    /// Number of glyph runs that the source takes: one for a line of text,
    /// two for each card.
    pub open spec fn spec_needs(&self) -> nat {
        match self {
            Source::Text { .. } => 1,
            Source::Card { .. } => 2,
            Source::FlyingCards { cards: count, .. } => 2 * (*count as nat),
            Source::CardStack { .. } => 4,
            _ => 0,
        }
    }

    pub fn needs(&self) -> (n: usize)
        ensures
            n == self.spec_needs(),
            n <= 510,
    {
        match self {
            Source::Text { .. } => 1,
            Source::Card { .. } => 2,
            Source::FlyingCards { cards: count, .. } => 2 * (*count as usize),
            Source::CardStack { .. } => 4,
            _ => 0,
        }
    }

    /// Extent of the image of the source on a frame of `w` × `h`, with its
    /// glyph runs from the index `at` of `runs` on.
    pub open spec fn spec_extent(&self, w: u32, h: u32, runs: Seq<GlyphRun>, at: int) -> (int, int) {
        match self {
            Source::Character { expression, scale } => (
                Character::spec_sprite_width(*scale) as int,
                Character::spec_sprite_height(*scale) as int,
            ),
            Source::Text { text, size, style, halo } => match halo {
                Some(g) => (
                    style.spec_side(runs[at].spec_text_width()) + 2 * g.radius,
                    style.spec_side(runs[at].spec_text_height()) + 2 * g.radius,
                ),
                None => (
                    style.spec_side(runs[at].spec_text_width()),
                    style.spec_side(runs[at].spec_text_height()),
                ),
            },
            Source::Card { card, width, height } => (*width as int, *height as int),
            Source::FlyingCards { width, height, cards: count, seed } => (4 * *width, 4 * *height),
            Source::CardStack { first, second, width, height, offset } => (
                CardRenderer::spec_stack_side(*width, *offset, 2),
                CardRenderer::spec_stack_side(*height, *offset, 2),
            ),
            _ => (w as int, h as int),
        }
    }

    /// Whether the image of the source can be made: its glyph runs are
    /// there and every canvas that making it takes can be allocated.
    pub open spec fn spec_renderable(&self, w: u32, h: u32, runs: Seq<GlyphRun>, at: int) -> bool {
        &&& (self.spec_needs() == 0 || at + self.spec_needs() <= runs.len())
        &&& self.spec_extent(w, h, runs, at).0 <= i32::MAX
        &&& self.spec_extent(w, h, runs, at).1 <= i32::MAX
        &&& fits_memory(self.spec_extent(w, h, runs, at).0, self.spec_extent(w, h, runs, at).1)
        &&& match self {
            Source::Text { text, size, style, halo } => text_image_fits(&runs[at], style),
            Source::Card { card, width, height } => true,
            Source::FlyingCards { width, height, cards: count, seed } => true,
            Source::CardStack { first, second, width, height, offset } => fits_memory(
                *width as int,
                *height as int,
            ),
            _ => true,
        }
    }

    /// The pixel `(px, py)` of the image of the source.
    pub open spec fn spec_pixel(
        &self,
        character: &Character,
        w: u32,
        h: u32,
        runs: Seq<GlyphRun>,
        at: int,
        px: int,
        py: int,
    ) -> Color {
        match self {
            Source::DramaticDark { time } => Backgrounds::spec_dark_lights(
                w,
                h,
                *time,
                (DarkBase { height: h }).spec_shade(Color::transparent(), px, py),
                px,
                py,
                3,
            ),
            Source::SolidVignette { color, strength } => (SolidVignette {
                width: w,
                height: h,
                base: *color,
                strength: *strength,
            }).spec_shade(Color::transparent(), px, py),
            Source::UnoTheme { time } => Backgrounds::spec_uno_theme(w, h, *time, px, py),
            Source::Spotlight { x, y, intensity } => Backgrounds::spec_spotlight(
                w,
                h,
                *x,
                *y,
                *intensity,
                px,
                py,
            ),
            Source::Chaos { time, seed } => Backgrounds::spec_chaos(
                *time,
                Backgrounds::spec_chaos_lines(h, *time, *seed).0,
                Backgrounds::spec_chaos_bursts(w, h, *time, *seed),
                px,
                py,
            ),
            Source::Sparkles { count, time, seed } => (Sparkles {
                width: w,
                height: h,
                count: *count as usize,
                time: *time,
                seed: *seed,
            }).spec_after(Color::transparent(), px, py, *count as nat),
            Source::EnergyWave { time, color } => (EnergyWave {
                width: w,
                height: h,
                time: *time,
                color: *color,
            }).spec_shade(Color::transparent(), px, py),
            Source::Flash { intensity } => Color::rgba(
                255,
                255,
                255,
                spec_overlay_alpha(*intensity, 255),
            ),
            Source::FadeFromBlack { progress } => Color::rgba(
                0,
                0,
                0,
                spec_overlay_alpha(Fixed::one().minus(progress.unit()), 255),
            ),
            Source::FadeToBlack { progress } => Color::rgba(
                0,
                0,
                0,
                spec_overlay_alpha(*progress, 255),
            ),
            Source::Character { expression, scale } => character.spec_pixel(
                *expression,
                *scale,
                px,
                py,
            ),
            Source::Text { text, size, style, halo } => match halo {
                Some(g) => (GlowModel {
                    pixels: Map::new(
                        |p: (int, int)|
                            grid(
                                style.spec_side(runs[at].spec_text_width()) as u32,
                                style.spec_side(runs[at].spec_text_height()) as u32,
                            ).contains(p),
                        |p: (int, int)| TextRenderer::spec_text_pixel(&runs[at], style, p.0, p.1),
                    ),
                    width: style.spec_side(runs[at].spec_text_width()) as u32,
                    height: style.spec_side(runs[at].spec_text_height()) as u32,
                    color: g.color,
                    radius: g.radius,
                    intensity: g.intensity,
                }).spec_pixel(px, py),
                None => TextRenderer::spec_text_pixel(&runs[at], style, px, py),
            },
            Source::Card { card, width, height } => card.spec_pixel(
                *width,
                *height,
                &spec_glyphs_at(runs, at),
                px,
                py,
            ),
            Source::FlyingCards { width, height, cards: count, seed } => CardRenderer::spec_flying(
                spec_printed(
                    spec_deal_many(seeded_state(*seed), *width, *height, *count as nat).0,
                    runs,
                    at,
                ),
                Color::transparent(),
                px,
                py,
                *count as nat,
            ),
            Source::CardStack { first, second, width, height, offset } => CardRenderer::spec_stack(
                spec_stack_cards(*first, *second, runs, at),
                *width,
                *height,
                *offset,
                Color::transparent(),
                px,
                py,
                2,
            ),
        }
    }
}

/// Dealing `n` cards gives `n` cards.
pub proof fn lemma_deal_many_len(state: Seq<u8>, card_width: u32, card_height: u32, n: nat)
    ensures
        spec_deal_many(state, card_width, card_height, n).0.len() == n,
    decreases n,
{
    if n > 0 {
        lemma_deal_many_len(state, card_width, card_height, (n - 1) as nat);
    }
}

impl Source {
    /// Extent of the image of the source as two numbers that cannot
    /// overflow, or nothing where the glyph runs that it takes are missing.
    fn extent(&self, w: u32, h: u32, runs: &Vec<GlyphRun>, at: usize) -> (e: Option<(u64, u64)>)
        ensures
            e.is_some() == (self.spec_needs() == 0 || at + self.spec_needs() <= runs@.len()),
            e.is_some() ==> e.unwrap().0 == self.spec_extent(w, h, runs@, at as int).0 && e.unwrap().1
                == self.spec_extent(w, h, runs@, at as int).1,
    {
        let n: usize = self.needs();
        if n > 0 && (at > runs.len() || runs.len() - at < n) {
            return None;
        }
        match self {
            Source::Character { expression, scale } => Some(
                (Character::sprite_width(*scale) as u64, Character::sprite_height(*scale) as u64),
            ),
            Source::Text { text, size, style, halo } => {
                let run = &runs[at];
                let pad: u64 = style.padding();
                let tw: u64 = run.text_width() as u64 + 2 * pad + 10;
                let th: u64 = run.text_height() as u64 + 2 * pad + 10;
                match halo {
                    Some(g) => Some((tw + 2 * (g.radius as u64), th + 2 * (g.radius as u64))),
                    None => Some((tw, th)),
                }
            },
            Source::Card { card, width, height } => Some((*width as u64, *height as u64)),
            Source::FlyingCards { width, height, cards: count, seed } => Some(
                (4 * (*width as u64), 4 * (*height as u64)),
            ),
            Source::CardStack { first, second, width, height, offset } => {
                let step: u64 = crate::text::reach(*offset) as u64;
                assert(step * 1 == step) by (nonlinear_arith);
                Some((*width as u64 + step, *height as u64 + step))
            },
            _ => Some((w as u64, h as u64)),
        }
    }

    /// The image of the source on a frame of `w` × `h`, with its glyph runs
    /// from the index `at` of `runs` on; nothing where it cannot be made.
#[verifier::rlimit(50)]
    pub fn render(&self, character: &Character, w: u32, h: u32, runs: &Vec<GlyphRun>, at: usize) -> (img: Option<Canvas>)
        ensures
            img.is_some() == self.spec_renderable(w, h, runs@, at as int),
            img.is_some() ==> img.unwrap().spec_width() == self.spec_extent(
                w,
                h,
                runs@,
                at as int,
            ).0 && img.unwrap().spec_height() == self.spec_extent(w, h, runs@, at as int).1,
            img.is_some() ==> forall|x: int, y: int|
                img.unwrap().contains(x, y) ==> #[trigger] img.unwrap().at(x, y)
                    == self.spec_pixel(character, w, h, runs@, at as int, x, y),
    {
        let e = match self.extent(w, h, runs, at) {
            Some(e) => e,
            None => {
                return None;
            },
        };
        if e.0 > i32::MAX as u64 || e.1 > i32::MAX as u64 {
            return None;
        }
        let ew: u32 = e.0 as u32;
        let eh: u32 = e.1 as u32;
        if !can_allocate(ew, eh) {
            return None;
        }
        match self {
            Source::DramaticDark { time } => Some(Backgrounds::dramatic_dark(w, h, *time)),
            Source::SolidVignette { color, strength } => Some(
                Backgrounds::solid_with_vignette(w, h, *color, *strength),
            ),
            Source::UnoTheme { time } => Some(Backgrounds::uno_theme(w, h, *time)),
            Source::Spotlight { x, y, intensity } => Some(
                Backgrounds::spotlight(w, h, *x, *y, *intensity),
            ),
            Source::Chaos { time, seed } => Some(Backgrounds::chaos(w, h, *time, *seed)),
            Source::Sparkles { count, time, seed } => Some(
                Particles::sparkles(w, h, *count as usize, *time, *seed),
            ),
            Source::EnergyWave { time, color } => Some(Particles::energy_wave(w, h, *time, *color)),
            Source::Flash { intensity } => Some(Flash::white(w, h, *intensity)),
            Source::FadeFromBlack { progress } => Some(Fade::from_black(w, h, *progress)),
            Source::FadeToBlack { progress } => Some(Fade::to_black(w, h, *progress)),
            Source::Character { expression, scale } => Some(character.render(*expression, *scale)),
            Source::Text { text, size, style, halo } => {
                assert(self.spec_needs() == 1);
                Source::render_text(&runs[at], style, halo)
            },
            Source::Card { card, width, height } => {
                assert(self.spec_needs() == 2);
                let total: usize = runs.len();
                let glyphs = CardGlyphs { centre: &runs[at], corner: &runs[at + 1] };
                Some(card.render(*width, *height, &glyphs))
            },
            Source::FlyingCards { width, height, cards: count, seed } => {
                assert(self.spec_needs() == 2 * *count);
                Some(Source::render_flying(*width, *height, *count, *seed, runs, at))
            },
            Source::CardStack { first, second, width, height, offset } => {
                assert(self.spec_needs() == 4);
                if !can_allocate(*width, *height) {
                    return None;
                }
                Some(Source::render_pair(*first, *second, *width, *height, *offset, runs, at))
            },
        }
    }

    /// The image of a line of text, with its halo where it has one.
#[verifier::rlimit(50)]
    fn render_text(run: &GlyphRun, style: &TextStyle, halo: &Option<Halo>) -> (img: Option<Canvas>)
        requires
            match halo {
                Some(g) => style.spec_side(run.spec_text_width()) + 2 * g.radius <= i32::MAX
                    && style.spec_side(run.spec_text_height()) + 2 * g.radius <= i32::MAX
                    && fits_memory(
                    style.spec_side(run.spec_text_width()) + 2 * g.radius,
                    style.spec_side(run.spec_text_height()) + 2 * g.radius,
                ),
                None => style.spec_side(run.spec_text_width()) <= i32::MAX && style.spec_side(
                    run.spec_text_height(),
                ) <= i32::MAX,
            },
        ensures
            img.is_some() == text_image_fits(run, style),
            img.is_some() ==> match halo {
                Some(g) => img.unwrap().spec_width() == style.spec_side(run.spec_text_width()) + 2
                    * g.radius && img.unwrap().spec_height() == style.spec_side(
                    run.spec_text_height(),
                ) + 2 * g.radius && forall|x: int, y: int|
                    img.unwrap().contains(x, y) ==> #[trigger] img.unwrap().at(x, y) == (GlowModel {
                        pixels: Map::new(
                            |p: (int, int)|
                                grid(
                                    style.spec_side(run.spec_text_width()) as u32,
                                    style.spec_side(run.spec_text_height()) as u32,
                                ).contains(p),
                            |p: (int, int)| TextRenderer::spec_text_pixel(run, style, p.0, p.1),
                        ),
                        width: style.spec_side(run.spec_text_width()) as u32,
                        height: style.spec_side(run.spec_text_height()) as u32,
                        color: g.color,
                        radius: g.radius,
                        intensity: g.intensity,
                    }).spec_pixel(x, y),
                None => img.unwrap().spec_width() == style.spec_side(run.spec_text_width())
                    && img.unwrap().spec_height() == style.spec_side(run.spec_text_height())
                    && forall|x: int, y: int|
                    img.unwrap().contains(x, y) ==> #[trigger] img.unwrap().at(x, y)
                        == TextRenderer::spec_text_pixel(run, style, x, y),
            },
    {
        let pad: u64 = style.padding();
        let tw: u64 = run.text_width() as u64 + 2 * pad + 10;
        let th: u64 = run.text_height() as u64 + 2 * pad + 10;
        if tw > u32::MAX as u64 || th > u32::MAX as u64 || !can_allocate(tw as u32, th as u32) {
            return None;
        }
        let renderer = TextRenderer::new();
        let text_img = renderer.render(run, style);
        match halo {
            Some(g) => {
                let glowing = Glow::apply(&text_img, g.color, g.radius, g.intensity);
                proof {
                    lemma_view_of(
                        &text_img,
                        |x: int, y: int| TextRenderer::spec_text_pixel(run, style, x, y),
                    );
                    assert(text_img.view() =~= Map::new(
                        |p: (int, int)|
                            grid(
                                style.spec_side(run.spec_text_width()) as u32,
                                style.spec_side(run.spec_text_height()) as u32,
                            ).contains(p),
                        |p: (int, int)| TextRenderer::spec_text_pixel(run, style, p.0, p.1),
                    ));
                }
                Some(glowing)
            },
            None => Some(text_img),
        }
    }

    /// The image of a scatter of flying cards.
#[verifier::rlimit(50)]
    fn render_flying(width: u32, height: u32, count: u8, seed: u64, runs: &Vec<GlyphRun>, at: usize) -> (img: Canvas)
        requires
            count == 0 || at + 2 * count <= runs@.len(),
            4 * width <= i32::MAX,
            4 * height <= i32::MAX,
            fits_memory(4 * width, 4 * height),
        ensures
            img.spec_width() == 4 * width,
            img.spec_height() == 4 * height,
            forall|x: int, y: int|
                img.contains(x, y) ==> #[trigger] img.at(x, y) == CardRenderer::spec_flying(
                    spec_printed(
                        spec_deal_many(seeded_state(seed), width, height, count as nat).0,
                        runs@,
                        at as int,
                    ),
                    Color::transparent(),
                    x,
                    y,
                    count as nat,
                ),
    {
        let plan = CardRenderer::plan_flying_cards(width, height, count as usize, seed);
        proof {
            lemma_deal_many_len(seeded_state(seed), width, height, count as nat);
        }
        let total: usize = runs.len();
        let mut printed: Vec<PrintedFlyingCard> = Vec::new();
        let mut i: usize = 0;
        while i < plan.len()
            invariant
                total == runs@.len(),
                i <= plan@.len(),
                plan@.len() == count,
                count == 0 || at + 2 * plan@.len() <= runs@.len(),
                printed@ =~= spec_printed(plan@, runs@, at as int).take(i as int),
            decreases plan@.len() - i,
        {
            printed.push(
                PrintedFlyingCard {
                    place: plan[i],
                    glyphs: CardGlyphs { centre: &runs[at + 2 * i], corner: &runs[at + 2 * i + 1] },
                },
            );
            i = i + 1;
        }
        assert(printed@ =~= spec_printed(plan@, runs@, at as int));
        CardRenderer::render_flying_cards(width, height, &printed)
    }

    /// The image of a stack of two cards.
#[verifier::rlimit(50)]
    fn render_pair(first: Card, second: Card, width: u32, height: u32, offset: i32, runs: &Vec<GlyphRun>, at: usize) -> (img: Canvas)
        requires
            at + 4 <= runs@.len(),
            CardRenderer::spec_stack_side(width, offset, 2) <= i32::MAX,
            CardRenderer::spec_stack_side(height, offset, 2) <= i32::MAX,
            fits_memory(
                CardRenderer::spec_stack_side(width, offset, 2),
                CardRenderer::spec_stack_side(height, offset, 2),
            ),
            fits_memory(width as int, height as int),
        ensures
            img.spec_width() == CardRenderer::spec_stack_side(width, offset, 2),
            img.spec_height() == CardRenderer::spec_stack_side(height, offset, 2),
            forall|x: int, y: int|
                img.contains(x, y) ==> #[trigger] img.at(x, y) == CardRenderer::spec_stack(
                    spec_stack_cards(first, second, runs@, at as int),
                    width,
                    height,
                    offset,
                    Color::transparent(),
                    x,
                    y,
                    2,
                ),
    {
        let total: usize = runs.len();
        let mut cards: Vec<PrintedCard> = Vec::new();
        cards.push(
            PrintedCard {
                card: first,
                glyphs: CardGlyphs { centre: &runs[at], corner: &runs[at + 1] },
            },
        );
        cards.push(
            PrintedCard {
                card: second,
                glyphs: CardGlyphs { centre: &runs[at + 2], corner: &runs[at + 3] },
            },
        );
        assert(cards@ =~= spec_stack_cards(first, second, runs@, at as int));
        CardRenderer::render_stack(&cards, width, height, offset)
    }
}

impl Layer {
    /// Extent of the image of the layer: that of its source, scaled.
    pub open spec fn spec_extent(&self, w: u32, h: u32, runs: Seq<GlyphRun>, at: int) -> (u32, u32) {
        if spec_near_one(self.scale) {
            (
                self.source.spec_extent(w, h, runs, at).0 as u32,
                self.source.spec_extent(w, h, runs, at).1 as u32,
            )
        } else {
            (
                spec_scaled_side(self.source.spec_extent(w, h, runs, at).0 as u32, self.scale),
                spec_scaled_side(self.source.spec_extent(w, h, runs, at).1 as u32, self.scale),
            )
        }
    }

    /// Whether the layer shows at all: its source can be made and, where it
    /// is scaled, the scaled image can be allocated.
    pub open spec fn spec_visible(&self, w: u32, h: u32, runs: Seq<GlyphRun>, at: int) -> bool {
        &&& self.source.spec_renderable(w, h, runs, at)
        &&& (!spec_near_one(self.scale) ==> fits_memory(
            self.spec_extent(w, h, runs, at).0 as int,
            self.spec_extent(w, h, runs, at).1 as int,
        ) && fits_memory(
            self.source.spec_extent(w, h, runs, at).0,
            self.spec_extent(w, h, runs, at).1 as int,
        ))
    }

    /// The pixels of the image of the source of the layer.
    pub open spec fn spec_source_pixels(
        &self,
        character: &Character,
        w: u32,
        h: u32,
        runs: Seq<GlyphRun>,
        at: int,
    ) -> Map<(int, int), Color> {
        Map::new(
            |p: (int, int)|
                grid(
                    self.source.spec_extent(w, h, runs, at).0 as u32,
                    self.source.spec_extent(w, h, runs, at).1 as u32,
                ).contains(p),
            |p: (int, int)| self.source.spec_pixel(character, w, h, runs, at, p.0, p.1),
        )
    }

    /// The pixel `(lx, ly)` of the image of the layer: that of its source,
    /// resampled where the layer is scaled.
    pub open spec fn spec_pixel(
        &self,
        character: &Character,
        w: u32,
        h: u32,
        runs: Seq<GlyphRun>,
        at: int,
        lx: int,
        ly: int,
    ) -> Color {
        if spec_near_one(self.scale) {
            self.source.spec_pixel(character, w, h, runs, at, lx, ly)
        } else {
            resampled_pixels(
                self.spec_source_pixels(character, w, h, runs, at),
                (
                    self.source.spec_extent(w, h, runs, at).0 as u32,
                    self.source.spec_extent(w, h, runs, at).1 as u32,
                ),
                self.spec_extent(w, h, runs, at),
            )[(lx, ly)]
        }
    }

    /// What the layer makes of the pixel `(px, py)` of the frame that holds
    /// `acc`: its image is composited at its place with its alpha; a layer
    /// that does not show changes nothing.
    pub open spec fn spec_over(
        &self,
        character: &Character,
        w: u32,
        h: u32,
        runs: Seq<GlyphRun>,
        at: int,
        acc: Color,
        px: int,
        py: int,
    ) -> Color {
        if self.spec_visible(w, h, runs, at) {
            spec_laid_over(
                Map::new(
                    |p: (int, int)|
                        grid(
                            self.spec_extent(w, h, runs, at).0,
                            self.spec_extent(w, h, runs, at).1,
                        ).contains(p),
                    |p: (int, int)| self.spec_pixel(character, w, h, runs, at, p.0, p.1),
                ),
                self.spec_extent(w, h, runs, at).0,
                self.spec_extent(w, h, runs, at).1,
                self.x.spec_resolve(self.spec_extent(w, h, runs, at).0) as int,
                self.y as int,
                self.alpha,
                acc,
                px,
                py,
            )
        } else {
            acc
        }
    }

    /// Draws the layer onto `frame`, with its glyph runs from the index `at`
    /// of `runs` on.
#[verifier::rlimit(50)]
    pub fn draw(&self, frame: &mut Canvas, character: &Character, runs: &Vec<GlyphRun>, at: usize)
        ensures
            final(frame).spec_width() == old(frame).spec_width(),
            final(frame).spec_height() == old(frame).spec_height(),
            forall|x: int, y: int|
                final(frame).contains(x, y) ==> #[trigger] final(frame).at(x, y) == self.spec_over(
                    character,
                    old(frame).spec_width(),
                    old(frame).spec_height(),
                    runs@,
                    at as int,
                    old(frame).at(x, y),
                    x,
                    y,
                ),
    {
        let w: u32 = frame.width();
        let h: u32 = frame.height();
        let img = match self.source.render(character, w, h, runs, at) {
            Some(img) => img,
            None => {
                return ;
            },
        };
        proof {
            lemma_view_of(
                &img,
                |x: int, y: int| self.source.spec_pixel(character, w, h, runs@, at as int, x, y),
            );
        }
        if near_one(self.scale) {
            proof {
                lemma_view_of(
                    &img,
                    |x: int, y: int| self.spec_pixel(character, w, h, runs@, at as int, x, y),
                );
            }
            frame.composite_with_alpha(&img, self.x.resolve(img.width()), self.y, self.alpha);
        } else {
            let sw: u32 = scaled_side(img.width(), self.scale);
            let sh: u32 = scaled_side(img.height(), self.scale);
            if !can_allocate(sw, sh) || !can_allocate(img.width(), sh) {
                return ;
            }
            let scaled = FrameComposer::scale_image(&img, self.scale);
            proof {
                assert(img.view() =~= self.spec_source_pixels(character, w, h, runs@, at as int));
                lemma_view_of(
                    &scaled,
                    |x: int, y: int| self.spec_pixel(character, w, h, runs@, at as int, x, y),
                );
            }
            frame.composite_with_alpha(&scaled, self.x.resolve(sw), self.y, self.alpha);
        }
    }
}

/// Number of glyph runs that the first `n` layers take.
pub open spec fn spec_cursor(layers: Seq<Option<Layer>>, n: nat) -> nat
    decreases n,
{
    if n == 0 || n > layers.len() {
        0
    } else {
        spec_cursor(layers, (n - 1) as nat) + match layers[n - 1] {
            Some(layer) => layer.source.spec_needs(),
            None => 0,
        }
    }
}

/// The pixel `(px, py)` of a frame of `w` × `h` after the first `n` layers,
/// drawn back to front onto a blank frame, each with the glyph runs that
/// the layers before it have left.
pub open spec fn spec_frame(
    character: &Character,
    layers: Seq<Option<Layer>>,
    runs: Seq<GlyphRun>,
    w: u32,
    h: u32,
    px: int,
    py: int,
    n: nat,
) -> Color
    decreases n,
{
    if n == 0 || n > layers.len() {
        Color::transparent()
    } else {
        match layers[n - 1] {
            Some(layer) => layer.spec_over(
                character,
                w,
                h,
                runs,
                spec_cursor(layers, (n - 1) as nat) as int,
                spec_frame(character, layers, runs, w, h, px, py, (n - 1) as nat),
                px,
                py,
            ),
            None => spec_frame(character, layers, runs, w, h, px, py, (n - 1) as nat),
        }
    }
}

/// The first `n` layers take at most 510 glyph runs each.
pub proof fn lemma_cursor_bound(layers: Seq<Option<Layer>>, n: nat)
    ensures
        spec_cursor(layers, n) <= 510 * n,
    decreases n,
{
    if n > 0 && n <= layers.len() {
        lemma_cursor_bound(layers, (n - 1) as nat);
    }
}

/// The layers before an index take no more glyph runs than the layers
/// before a later one.
pub proof fn lemma_cursor_grows(layers: Seq<Option<Layer>>, i: nat, n: nat)
    requires
        i <= n <= layers.len(),
    ensures
        spec_cursor(layers, i) <= spec_cursor(layers, n),
    decreases n,
{
    if i < n {
        lemma_cursor_grows(layers, i, (n - 1) as nat);
    }
}

/// Draws the layers back to front onto a blank frame of `w` × `h`. The
/// count of glyph runs that the layers take has to fit a machine word.
#[verifier::rlimit(50)]
pub fn compose(character: &Character, layers: &Vec<Option<Layer>>, runs: &Vec<GlyphRun>, w: u32, h: u32) -> (frame: Canvas)
    requires
        fits_memory(w as int, h as int),
        spec_cursor(layers@, layers@.len()) <= usize::MAX,
    ensures
        frame.spec_width() == w,
        frame.spec_height() == h,
        forall|x: int, y: int|
            frame.contains(x, y) ==> #[trigger] frame.at(x, y) == spec_frame(
                character,
                layers@,
                runs@,
                w,
                h,
                x,
                y,
                layers@.len(),
            ),
{
    let mut frame = Canvas::new(w, h);
    let mut cursor: usize = 0;
    let mut i: usize = 0;
    while i < layers.len()
        invariant
            i <= layers@.len(),
            spec_cursor(layers@, layers@.len()) <= usize::MAX,
            cursor == spec_cursor(layers@, i as nat),
            frame.spec_width() == w,
            frame.spec_height() == h,
            forall|x: int, y: int|
                frame.contains(x, y) ==> #[trigger] frame.at(x, y) == spec_frame(
                    character,
                    layers@,
                    runs@,
                    w,
                    h,
                    x,
                    y,
                    i as nat,
                ),
        decreases layers@.len() - i,
    {
        proof {
            lemma_cursor_grows(layers@, (i + 1) as nat, layers@.len());
        }
        match &layers[i] {
            Some(layer) => {
                layer.draw(&mut frame, character, runs, cursor);
                cursor = cursor + layer.source.needs();
            },
            None => {},
        }
        i = i + 1;
    }
    frame
}

/// The fraction `m` millionths of an extent, in whole pixels.
pub open spec fn spec_frac(extent: u32, m: i64) -> i32 {
    Fixed::from_int(extent as i64).times(Fixed::millionths(m)).pixels()
}

#[verifier::when_used_as_spec(spec_frac)]
pub fn frac(extent: u32, m: i64) -> (r: i32)
    ensures
        r == spec_frac(extent, m),
{
    Fixed::from_int(extent as i64).times(Fixed::millionths(m)).pixels()
}

/// The sum of two coordinates, kept within their range.
pub open spec fn spec_shift(a: i32, b: i32) -> i32 {
    Fixed::from_int((a as i64 + b as i64) as i64).pixels()
}

#[verifier::when_used_as_spec(spec_shift)]
pub fn shift(a: i32, b: i32) -> (r: i32)
    ensures
        r == spec_shift(a, b),
{
    Fixed::from_int((a as i64 + b as i64) as i64).pixels()
}

/// An extent as a coordinate, capped at the largest one.
pub open spec fn spec_span(v: u32) -> i32 {
    Fixed::from_int(v as i64).pixels()
}

#[verifier::when_used_as_spec(spec_span)]
pub fn span(v: u32) -> (r: i32)
    ensures
        r == spec_span(v),
{
    Fixed::from_int(v as i64).pixels()
}

/// The negative of an extent as a coordinate.
pub open spec fn spec_neg(v: u32) -> i32 {
    Fixed::from_int(v as i64).negated().pixels()
}

#[verifier::when_used_as_spec(spec_neg)]
pub fn neg(v: u32) -> (r: i32)
    ensures
        r == spec_neg(v),
{
    Fixed::from_int(v as i64).negated().pixels()
}

/// Row of the top of a sprite of the height given that stands `extra` pixels
/// below the bottom edge of a frame of `h` rows.
pub open spec fn spec_bottom_row(h: u32, sprite: u32, extra: i32) -> i32 {
    Fixed::from_int((h as i64 - sprite as i64 + extra as i64) as i64).pixels()
}

#[verifier::when_used_as_spec(spec_bottom_row)]
pub fn bottom_row(h: u32, sprite: u32, extra: i32) -> (r: i32)
    ensures
        r == spec_bottom_row(h, sprite, extra),
{
    Fixed::from_int((h as i64 - sprite as i64 + extra as i64) as i64).pixels()
}

/// Column of the left edge of a sprite of the width given that keeps `margin`
/// pixels from the right edge of a frame of `w` columns.
pub open spec fn spec_right_edge(w: u32, sprite: u32, margin: i32) -> i32 {
    Fixed::from_int((w as i64 - sprite as i64 - margin as i64) as i64).pixels()
}

#[verifier::when_used_as_spec(spec_right_edge)]
pub fn right_edge(w: u32, sprite: u32, margin: i32) -> (r: i32)
    ensures
        r == spec_right_edge(w, sprite, margin),
{
    Fixed::from_int((w as i64 - sprite as i64 - margin as i64) as i64).pixels()
}

/// A number of seconds as a seed: its whole part, zero where it is negative.
pub open spec fn spec_seconds_seed(v: Fixed) -> u64 {
    v.extent() as u64
}

#[verifier::when_used_as_spec(spec_seconds_seed)]
pub fn seconds_seed(v: Fixed) -> (r: u64)
    ensures
        r == spec_seconds_seed(v),
{
    v.extent() as u64
}

/// Side of a layer whose source measures `side` once it is scaled.
pub open spec fn spec_layer_side(side: u32, scale: Fixed) -> u32 {
    if near_one(scale) {
        side
    } else {
        scaled_side(side, scale)
    }
}

#[verifier::when_used_as_spec(spec_layer_side)]
pub fn layer_side(side: u32, scale: Fixed) -> (r: u32)
    ensures
        r == spec_layer_side(side, scale),
{
    if near_one(scale) {
        side
    } else {
        scaled_side(side, scale)
    }
}

/// A value that rises from zero to one over the first half of `t` and falls back over the second.
pub open spec fn spec_there_and_back(t: Fixed) -> Fixed {
    if t.below(Fixed::millionths(500_000)) {
        t.times(Fixed::from_int(2))
    } else {
        Fixed::one().minus(t).times(Fixed::from_int(2))
    }
}

#[verifier::when_used_as_spec(spec_there_and_back)]
pub fn there_and_back(t: Fixed) -> (r: Fixed)
    ensures
        r == spec_there_and_back(t),
{
    if t.below(Fixed::millionths(500_000)) {
        t.times(Fixed::from_int(2))
    } else {
        Fixed::one().minus(t).times(Fixed::from_int(2))
    }
}

/// A layer at full size and alpha.
pub open spec fn spec_plain(source: Source, x: Placement, y: i32) -> Layer {
    Layer { source, scale: Fixed::one(), x, y, alpha: Fixed::one() }
}

#[verifier::when_used_as_spec(spec_plain)]
pub fn plain(source: Source, x: Placement, y: i32) -> (r: Layer)
    ensures
        r == spec_plain(source, x, y),
{
    Layer { source, scale: Fixed::one(), x, y, alpha: Fixed::one() }
}

/// A line of text centred on a frame of `w` columns, moved sideways by
/// `base`.
pub open spec fn spec_centred_text(w: u32, text: &'static str, size: Fixed, style: TextStyle, halo: Option<Halo>, base: i32, y: i32, alpha: Fixed) -> Layer {
    Layer {
        source: Source::Text { text, size, style, halo },
        scale: Fixed::one(),
        x: Placement::Within { base, span: span(w) },
        y,
        alpha,
    }
}

#[verifier::when_used_as_spec(spec_centred_text)]
pub fn centred_text(w: u32, text: &'static str, size: Fixed, style: TextStyle, halo: Option<Halo>, base: i32, y: i32, alpha: Fixed) -> (r: Layer)
    ensures
        r == spec_centred_text(w, text, size, style, halo, base, y, alpha),
{
    Layer {
        source: Source::Text { text, size, style, halo },
        scale: Fixed::one(),
        x: Placement::Within { base, span: span(w) },
        y,
        alpha,
    }
}

/// A line of text that pops in: centred, at `scale` times its full size, and
/// not there at all until the scale has passed a tenth.
pub open spec fn spec_pop_text(w: u32, text: &'static str, size: Fixed, scale: Fixed, style: TextStyle, halo: Option<Halo>, base: i32, y: i32, alpha: Fixed) -> Option<Layer> {
    if Fixed::millionths(100_000).below(scale) {
        Some(centred_text(w, text, size.times(scale), style, halo, base, y, alpha))
    } else {
        None
    }
}

#[verifier::when_used_as_spec(spec_pop_text)]
pub fn pop_text(w: u32, text: &'static str, size: Fixed, scale: Fixed, style: TextStyle, halo: Option<Halo>, base: i32, y: i32, alpha: Fixed) -> (r: Option<Layer>)
    ensures
        r == spec_pop_text(w, text, size, scale, style, halo, base, y, alpha),
{
    if Fixed::millionths(100_000).below(scale) {
        Some(centred_text(w, text, size.times(scale), style, halo, base, y, alpha))
    } else {
        None
    }
}

/// The style of the skull: white with a black outline and a short shadow.
pub open spec fn spec_skull_style() -> TextStyle {
    TextStyle {
        color: Color::rgba(255, 255, 255, 255),
        outline_color: Some(Color::rgba(0, 0, 0, 255)),
        outline_width: 4,
        shadow: true,
        shadow_offset: (3, 3),
        shadow_color: Color::rgba(0, 0, 0, 200),
    }
}

#[verifier::when_used_as_spec(spec_skull_style)]
pub fn skull_style() -> (r: TextStyle)
    ensures
        r == spec_skull_style(),
{
    TextStyle {
        color: Color::rgba(255, 255, 255, 255),
        outline_color: Some(Color::rgba(0, 0, 0, 255)),
        outline_width: 4,
        shadow: true,
        shadow_offset: (3, 3),
        shadow_color: Color::rgba(0, 0, 0, 200),
    }
}

/// The style of the grin: red with a black outline and a heavy shadow.
pub open spec fn spec_grin_style() -> TextStyle {
    TextStyle {
        color: Color::rgba(220, 50, 50, 255),
        outline_color: Some(Color::rgba(0, 0, 0, 255)),
        outline_width: 4,
        shadow: true,
        shadow_offset: (5, 5),
        shadow_color: Color::rgba(0, 0, 0, 220),
    }
}

#[verifier::when_used_as_spec(spec_grin_style)]
pub fn grin_style() -> (r: TextStyle)
    ensures
        r == spec_grin_style(),
{
    TextStyle {
        color: Color::rgba(220, 50, 50, 255),
        outline_color: Some(Color::rgba(0, 0, 0, 255)),
        outline_width: 4,
        shadow: true,
        shadow_offset: (5, 5),
        shadow_color: Color::rgba(0, 0, 0, 220),
    }
}

/// Scale of the character while it zooms in at the hook: from 1.5 to 2 along
/// an ease-out, with a wobble that dies away.
pub open spec fn spec_hook_zoom(zoom: Fixed) -> Fixed {
    Fixed::millionths(1_500_000).plus(Easing::ease_out(zoom).times(Fixed::millionths(500_000))).plus(
        zoom.times(Fixed::from_int(10)).sine().times(Fixed::millionths(20_000)).times(Fixed::one().minus(zoom)),
    )
}

#[verifier::when_used_as_spec(spec_hook_zoom)]
pub fn hook_zoom(zoom: Fixed) -> (r: Fixed)
    ensures
        r == spec_hook_zoom(zoom),
{
    Fixed::millionths(1_500_000).plus(Easing::ease_out(zoom).times(Fixed::millionths(500_000))).plus(
        zoom.times(Fixed::from_int(10)).sine().times(Fixed::millionths(20_000)).times(Fixed::one().minus(zoom)),
    )
}

/// Threshold of the fact of index `i`.
pub open spec fn spec_fact_threshold(i: u32) -> Fixed {
    if i == 0 {
        Fixed::millionths(100_000)
    } else if i == 1 {
        Fixed::millionths(350_000)
    } else {
        Fixed::millionths(600_000)
    }
}

#[verifier::when_used_as_spec(spec_fact_threshold)]
pub fn fact_threshold(i: u32) -> (r: Fixed)
    ensures
        r == spec_fact_threshold(i),
{
    if i == 0 {
        Fixed::millionths(100_000)
    } else if i == 1 {
        Fixed::millionths(350_000)
    } else {
        Fixed::millionths(600_000)
    }
}

/// Text of the fact of index `i`.
pub open spec fn spec_fact_text(i: u32) -> &'static str {
    if i == 0 {
        "168 CARDS"
    } else if i == 1 {
        "6 PLAYERS MAX"
    } else {
        "25 CARDS = ELIMINATED"
    }
}

#[verifier::when_used_as_spec(spec_fact_text)]
pub fn fact_text(i: u32) -> (r: &'static str)
    ensures
        r == spec_fact_text(i),
{
    if i == 0 {
        "168 CARDS"
    } else if i == 1 {
        "6 PLAYERS MAX"
    } else {
        "25 CARDS = ELIMINATED"
    }
}

/// Row of the fact of index `i`, in millionths of the height.
pub open spec fn spec_fact_row(i: u32) -> i64 {
    if i == 0 {
        150_000
    } else if i == 1 {
        250_000
    } else {
        350_000
    }
}

#[verifier::when_used_as_spec(spec_fact_row)]
pub fn fact_row(i: u32) -> (r: i64)
    ensures
        r == spec_fact_row(i),
{
    if i == 0 {
        150_000
    } else if i == 1 {
        250_000
    } else {
        350_000
    }
}

/// Start of the window of the draw card of index `i`.
pub open spec fn spec_draw_start(i: u32) -> Fixed {
    if i == 0 {
        Fixed::zero()
    } else if i == 1 {
        Fixed::millionths(200_000)
    } else {
        Fixed::millionths(400_000)
    }
}

#[verifier::when_used_as_spec(spec_draw_start)]
pub fn draw_start(i: u32) -> (r: Fixed)
    ensures
        r == spec_draw_start(i),
{
    if i == 0 {
        Fixed::zero()
    } else if i == 1 {
        Fixed::millionths(200_000)
    } else {
        Fixed::millionths(400_000)
    }
}

/// End of the window of the draw card of index `i`.
pub open spec fn spec_draw_end(i: u32) -> Fixed {
    if i == 0 {
        Fixed::millionths(200_000)
    } else if i == 1 {
        Fixed::millionths(400_000)
    } else {
        Fixed::millionths(700_000)
    }
}

#[verifier::when_used_as_spec(spec_draw_end)]
pub fn draw_end(i: u32) -> (r: Fixed)
    ensures
        r == spec_draw_end(i),
{
    if i == 0 {
        Fixed::millionths(200_000)
    } else if i == 1 {
        Fixed::millionths(400_000)
    } else {
        Fixed::millionths(700_000)
    }
}

/// The draw card of index `i`.
pub open spec fn spec_draw_card(i: u32) -> Card {
    if i == 0 {
        Card::new(CardColor::Red, CardType::DrawTwo)
    } else if i == 1 {
        Card::new(CardColor::Blue, CardType::DrawFour)
    } else {
        Card::new(CardColor::Wild, CardType::DrawTen)
    }
}

#[verifier::when_used_as_spec(spec_draw_card)]
pub fn draw_card(i: u32) -> (r: Card)
    ensures
        r == spec_draw_card(i),
{
    if i == 0 {
        Card::new(CardColor::Red, CardType::DrawTwo)
    } else if i == 1 {
        Card::new(CardColor::Blue, CardType::DrawFour)
    } else {
        Card::new(CardColor::Wild, CardType::DrawTen)
    }
}

/// Scale of the draw card of index `i`.
pub open spec fn spec_draw_scale(i: u32) -> Fixed {
    if i == 0 {
        Fixed::millionths(800_000)
    } else if i == 1 {
        Fixed::one()
    } else {
        Fixed::millionths(1_400_000)
    }
}

#[verifier::when_used_as_spec(spec_draw_scale)]
pub fn draw_scale(i: u32) -> (r: Fixed)
    ensures
        r == spec_draw_scale(i),
{
    if i == 0 {
        Fixed::millionths(800_000)
    } else if i == 1 {
        Fixed::one()
    } else {
        Fixed::millionths(1_400_000)
    }
}

/// Label of the draw card of index `i`.
pub open spec fn spec_draw_label(i: u32) -> &'static str {
    if i == 0 {
        "+2"
    } else if i == 1 {
        "+4"
    } else {
        "+10"
    }
}

#[verifier::when_used_as_spec(spec_draw_label)]
pub fn draw_label(i: u32) -> (r: &'static str)
    ensures
        r == spec_draw_label(i),
{
    if i == 0 {
        "+2"
    } else if i == 1 {
        "+4"
    } else {
        "+10"
    }
}

/// Row of the top of the card that rises from the bottom in the fourth scene.
pub open spec fn spec_rising_row(h: u32, progress: Fixed) -> i32 {
    Slide::along(
        span(h),
        Slide::rest(span(h), frac(h, 350000)),
        Easing::ease_out(progress.minus(Fixed::millionths(250_000)).over(Fixed::millionths(300_000)).lower(Fixed::one())),
    )
}

#[verifier::when_used_as_spec(spec_rising_row)]
pub fn rising_row(h: u32, progress: Fixed) -> (r: i32)
    ensures
        r == spec_rising_row(h, progress),
{
    Slide::along(
        span(h),
        Slide::rest(span(h), frac(h, 350000)),
        Easing::ease_out(progress.minus(Fixed::millionths(250_000)).over(Fixed::millionths(300_000)).lower(Fixed::one())),
    )
}

/// Time that the wild card of index `i` has had to appear: 0.15 times its
/// index, at most the part of the last 45% of the scene that has passed.
pub open spec fn spec_wild_time(progress: Fixed, i: u32) -> Fixed {
    Fixed::from_int(i as i64).times(Fixed::millionths(150_000)).lower(progress.minus(Fixed::millionths(550_000)).over(Fixed::millionths(450_000)))
}

#[verifier::when_used_as_spec(spec_wild_time)]
pub fn wild_time(progress: Fixed, i: u32) -> (r: Fixed)
    ensures
        r == spec_wild_time(progress, i),
{
    Fixed::from_int(i as i64).times(Fixed::millionths(150_000)).lower(progress.minus(Fixed::millionths(550_000)).over(Fixed::millionths(450_000)))
}

/// Scale of the wild card of index `i` as it pops in.
pub open spec fn spec_wild_scale(progress: Fixed, i: u32) -> Fixed {
    PopIn::get_scale(wild_time(progress, i).over(Fixed::millionths(150_000)), Fixed::millionths(500_000))
}

#[verifier::when_used_as_spec(spec_wild_scale)]
pub fn wild_scale(progress: Fixed, i: u32) -> (r: Fixed)
    ensures
        r == spec_wild_scale(progress, i),
{
    PopIn::get_scale(wild_time(progress, i).over(Fixed::millionths(150_000)), Fixed::millionths(500_000))
}

/// Column of the left edge of the wild card of index `i`: the cards are
/// centred on the fifths of the width.
pub open spec fn spec_wild_column(w: u32, progress: Fixed, i: u32) -> i32 {
    shift(
        Fixed::from_int((w / 5) as i64).times(Fixed::from_int((i % 4 + 1) as i64)).pixels(),
        neg((layer_side(100, wild_scale(progress, i)) / 2) as u32),
    )
}

#[verifier::when_used_as_spec(spec_wild_column)]
pub fn wild_column(w: u32, progress: Fixed, i: u32) -> (r: i32)
    ensures
        r == spec_wild_column(w, progress, i),
{
    shift(
        Fixed::from_int((w / 5) as i64).times(Fixed::from_int((i % 4 + 1) as i64)).pixels(),
        neg((layer_side(100, wild_scale(progress, i)) / 2) as u32),
    )
}

/// The wild card of index `i`.
pub open spec fn spec_wild_card(i: u32) -> Card {
    if i == 0 {
        Card::new(CardColor::Wild, CardType::DrawSix)
    } else if i == 1 {
        Card::new(CardColor::Wild, CardType::DrawTen)
    } else if i == 2 {
        Card::new(CardColor::Wild, CardType::ReverseDrawFour)
    } else {
        Card::new(CardColor::Wild, CardType::ColorRoulette)
    }
}

#[verifier::when_used_as_spec(spec_wild_card)]
pub fn wild_card(i: u32) -> (r: Card)
    ensures
        r == spec_wild_card(i),
{
    if i == 0 {
        Card::new(CardColor::Wild, CardType::DrawSix)
    } else if i == 1 {
        Card::new(CardColor::Wild, CardType::DrawTen)
    } else if i == 2 {
        Card::new(CardColor::Wild, CardType::ReverseDrawFour)
    } else {
        Card::new(CardColor::Wild, CardType::ColorRoulette)
    }
}

/// Label of the wild card of index `i`.
pub open spec fn spec_wild_label(i: u32) -> &'static str {
    if i == 0 {
        "Draw 6"
    } else if i == 1 {
        "Draw 10"
    } else if i == 2 {
        "Rev +4"
    } else {
        "Roulette"
    }
}

#[verifier::when_used_as_spec(spec_wild_label)]
pub fn wild_label(i: u32) -> (r: &'static str)
    ensures
        r == spec_wild_label(i),
{
    if i == 0 {
        "Draw 6"
    } else if i == 1 {
        "Draw 10"
    } else if i == 2 {
        "Rev +4"
    } else {
        "Roulette"
    }
}

/// Offset of everything that shakes in the chaos scene: the shake grows
/// stronger as the scene goes on.
pub open spec fn spec_chaos_shake(time: Fixed, progress: Fixed) -> (i32, i32) {
    (ScreenShake { intensity: Fixed::from_int(3).plus(progress.times(Fixed::from_int(8))), frequency: Fixed::from_int(10) }).get_offset(
        time,
    )
}

#[verifier::when_used_as_spec(spec_chaos_shake)]
pub fn chaos_shake(time: Fixed, progress: Fixed) -> (r: (i32, i32))
    ensures
        r == spec_chaos_shake(time, progress),
{
    (ScreenShake { intensity: Fixed::from_int(3).plus(progress.times(Fixed::from_int(8))), frequency: Fixed::from_int(10) }).get_offset(
        time,
    )
}

/// Start of the window of the rule of index `i`.
pub open spec fn spec_rule_start(i: u32) -> Fixed {
    if i == 0 {
        Fixed::zero()
    } else if i == 1 {
        Fixed::millionths(150_000)
    } else if i == 2 {
        Fixed::millionths(300_000)
    } else if i == 3 {
        Fixed::millionths(500_000)
    } else {
        Fixed::millionths(700_000)
    }
}

#[verifier::when_used_as_spec(spec_rule_start)]
pub fn rule_start(i: u32) -> (r: Fixed)
    ensures
        r == spec_rule_start(i),
{
    if i == 0 {
        Fixed::zero()
    } else if i == 1 {
        Fixed::millionths(150_000)
    } else if i == 2 {
        Fixed::millionths(300_000)
    } else if i == 3 {
        Fixed::millionths(500_000)
    } else {
        Fixed::millionths(700_000)
    }
}

/// End of the window of the rule of index `i`.
pub open spec fn spec_rule_end(i: u32) -> Fixed {
    if i == 0 {
        Fixed::millionths(150_000)
    } else if i == 1 {
        Fixed::millionths(300_000)
    } else if i == 2 {
        Fixed::millionths(500_000)
    } else if i == 3 {
        Fixed::millionths(700_000)
    } else {
        Fixed::one()
    }
}

#[verifier::when_used_as_spec(spec_rule_end)]
pub fn rule_end(i: u32) -> (r: Fixed)
    ensures
        r == spec_rule_end(i),
{
    if i == 0 {
        Fixed::millionths(150_000)
    } else if i == 1 {
        Fixed::millionths(300_000)
    } else if i == 2 {
        Fixed::millionths(500_000)
    } else if i == 3 {
        Fixed::millionths(700_000)
    } else {
        Fixed::one()
    }
}

/// The card of the rule of index `i`.
pub open spec fn spec_rule_card(i: u32) -> Card {
    if i == 0 {
        Card::new(CardColor::Blue, CardType::Number(7))
    } else if i == 1 {
        Card::new(CardColor::Green, CardType::Number(0))
    } else if i == 2 {
        Card::new(CardColor::Wild, CardType::SkipEveryone)
    } else if i == 3 {
        Card::new(CardColor::Yellow, CardType::DiscardAll)
    } else {
        Card::new(CardColor::Wild, CardType::ColorRoulette)
    }
}

#[verifier::when_used_as_spec(spec_rule_card)]
pub fn rule_card(i: u32) -> (r: Card)
    ensures
        r == spec_rule_card(i),
{
    if i == 0 {
        Card::new(CardColor::Blue, CardType::Number(7))
    } else if i == 1 {
        Card::new(CardColor::Green, CardType::Number(0))
    } else if i == 2 {
        Card::new(CardColor::Wild, CardType::SkipEveryone)
    } else if i == 3 {
        Card::new(CardColor::Yellow, CardType::DiscardAll)
    } else {
        Card::new(CardColor::Wild, CardType::ColorRoulette)
    }
}

/// Text of the rule of index `i`.
pub open spec fn spec_rule_text(i: u32) -> &'static str {
    if i == 0 {
        "SWAP HANDS!"
    } else if i == 1 {
        "PASS ALL HANDS!"
    } else if i == 2 {
        "SKIP EVERYONE!"
    } else if i == 3 {
        "DISCARD ALL!"
    } else {
        "COLOR ROULETTE!"
    }
}

#[verifier::when_used_as_spec(spec_rule_text)]
pub fn rule_text(i: u32) -> (r: &'static str)
    ensures
        r == spec_rule_text(i),
{
    if i == 0 {
        "SWAP HANDS!"
    } else if i == 1 {
        "PASS ALL HANDS!"
    } else if i == 2 {
        "SKIP EVERYONE!"
    } else if i == 3 {
        "DISCARD ALL!"
    } else {
        "COLOR ROULETTE!"
    }
}

/// How far the window of the rule of index `i` has run.
pub open spec fn spec_rule_progress(progress: Fixed, i: u32) -> Fixed {
    progress.minus(rule_start(i)).over(rule_end(i).minus(rule_start(i)))
}

#[verifier::when_used_as_spec(spec_rule_progress)]
pub fn rule_progress(progress: Fixed, i: u32) -> (r: Fixed)
    ensures
        r == spec_rule_progress(progress, i),
{
    progress.minus(rule_start(i)).over(rule_end(i).minus(rule_start(i)))
}

/// Number of cards on the pile: up to twenty over the last 80% of the scene.
pub open spec fn spec_pile_count(progress: Fixed) -> u32 {
    if progress.minus(Fixed::millionths(200_000)).over(Fixed::millionths(800_000)).times(Fixed::from_int(20)).extent() > 20 {
        20
    } else {
        progress.minus(Fixed::millionths(200_000)).over(Fixed::millionths(800_000)).times(Fixed::from_int(20)).extent()
    }
}

#[verifier::when_used_as_spec(spec_pile_count)]
pub fn pile_count(progress: Fixed) -> (r: u32)
    ensures
        r == spec_pile_count(progress),
{
    if progress.minus(Fixed::millionths(200_000)).over(Fixed::millionths(800_000)).times(Fixed::from_int(20)).extent() > 20 {
        20
    } else {
        progress.minus(Fixed::millionths(200_000)).over(Fixed::millionths(800_000)).times(Fixed::from_int(20)).extent()
    }
}

/// Scale of the character in the outro: down from 1.5 over the first half, then slowly up from 0.7.
pub open spec fn spec_outro_scale(progress: Fixed) -> Fixed {
    if progress.below(Fixed::millionths(500_000)) {
        Fixed::millionths(1_500_000).minus(progress.times(Fixed::millionths(800_000)))
    } else {
        Fixed::millionths(700_000).plus(progress.minus(Fixed::millionths(500_000)).times(Fixed::millionths(400_000)))
    }
}

#[verifier::when_used_as_spec(spec_outro_scale)]
pub fn outro_scale(progress: Fixed) -> (r: Fixed)
    ensures
        r == spec_outro_scale(progress),
{
    if progress.below(Fixed::millionths(500_000)) {
        Fixed::millionths(1_500_000).minus(progress.times(Fixed::millionths(800_000)))
    } else {
        Fixed::millionths(700_000).plus(progress.minus(Fixed::millionths(500_000)).times(Fixed::millionths(400_000)))
    }
}

/// Start of the window of the closing statement of index `i`.
pub open spec fn spec_statement_start(i: u32) -> Fixed {
    if i == 0 {
        Fixed::zero()
    } else if i == 1 {
        Fixed::millionths(150_000)
    } else {
        Fixed::millionths(300_000)
    }
}

#[verifier::when_used_as_spec(spec_statement_start)]
pub fn statement_start(i: u32) -> (r: Fixed)
    ensures
        r == spec_statement_start(i),
{
    if i == 0 {
        Fixed::zero()
    } else if i == 1 {
        Fixed::millionths(150_000)
    } else {
        Fixed::millionths(300_000)
    }
}

/// Text of the closing statement of index `i`.
pub open spec fn spec_statement_text(i: u32) -> &'static str {
    if i == 0 {
        "Ended friendships."
    } else if i == 1 {
        "Ruined holidays."
    } else {
        "Created villains."
    }
}

#[verifier::when_used_as_spec(spec_statement_text)]
pub fn statement_text(i: u32) -> (r: &'static str)
    ensures
        r == spec_statement_text(i),
{
    if i == 0 {
        "Ended friendships."
    } else if i == 1 {
        "Ruined holidays."
    } else {
        "Created villains."
    }
}

/// A count of cards as text; a count above 25 reads 25.
pub open spec fn spec_count_text(n: u32) -> &'static str {
    if n == 0 {
        "0"
    } else if n == 1 {
        "1"
    } else if n == 2 {
        "2"
    } else if n == 3 {
        "3"
    } else if n == 4 {
        "4"
    } else if n == 5 {
        "5"
    } else if n == 6 {
        "6"
    } else if n == 7 {
        "7"
    } else if n == 8 {
        "8"
    } else if n == 9 {
        "9"
    } else if n == 10 {
        "10"
    } else if n == 11 {
        "11"
    } else if n == 12 {
        "12"
    } else if n == 13 {
        "13"
    } else if n == 14 {
        "14"
    } else if n == 15 {
        "15"
    } else if n == 16 {
        "16"
    } else if n == 17 {
        "17"
    } else if n == 18 {
        "18"
    } else if n == 19 {
        "19"
    } else if n == 20 {
        "20"
    } else if n == 21 {
        "21"
    } else if n == 22 {
        "22"
    } else if n == 23 {
        "23"
    } else if n == 24 {
        "24"
    } else {
        "25"
    }
}

#[verifier::when_used_as_spec(spec_count_text)]
pub fn count_text(n: u32) -> (r: &'static str)
    ensures
        r == spec_count_text(n),
{
    if n == 0 {
        "0"
    } else if n == 1 {
        "1"
    } else if n == 2 {
        "2"
    } else if n == 3 {
        "3"
    } else if n == 4 {
        "4"
    } else if n == 5 {
        "5"
    } else if n == 6 {
        "6"
    } else if n == 7 {
        "7"
    } else if n == 8 {
        "8"
    } else if n == 9 {
        "9"
    } else if n == 10 {
        "10"
    } else if n == 11 {
        "11"
    } else if n == 12 {
        "12"
    } else if n == 13 {
        "13"
    } else if n == 14 {
        "14"
    } else if n == 15 {
        "15"
    } else if n == 16 {
        "16"
    } else if n == 17 {
        "17"
    } else if n == 18 {
        "18"
    } else if n == 19 {
        "19"
    } else if n == 20 {
        "20"
    } else if n == 21 {
        "21"
    } else if n == 22 {
        "22"
    } else if n == 23 {
        "23"
    } else if n == 24 {
        "24"
    } else {
        "25"
    }
}

/// The dark backdrop with its drifting lights.
#[verifier::opaque]
pub open spec fn spec_s1_background(w: u32, h: u32, time: Fixed, progress: Fixed) -> Option<Layer> {
    Some(plain(Source::DramaticDark { time }, Placement::At(0), 0))
}

#[verifier::when_used_as_spec(spec_s1_background)]
pub fn s1_background(w: u32, h: u32, time: Fixed, progress: Fixed) -> (r: Option<Layer>)
    ensures
        r == spec_s1_background(w, h, time, progress),
{
    proof {
        reveal(spec_s1_background);
    }
    Some(plain(Source::DramaticDark { time }, Placement::At(0), 0))
}

/// Fifteen sparkles.
#[verifier::opaque]
pub open spec fn spec_s1_sparkles(w: u32, h: u32, time: Fixed, progress: Fixed) -> Option<Layer> {
    Some(plain(Source::Sparkles { count: 15, time, seed: 42 }, Placement::At(0), 0))
}

#[verifier::when_used_as_spec(spec_s1_sparkles)]
pub fn s1_sparkles(w: u32, h: u32, time: Fixed, progress: Fixed) -> (r: Option<Layer>)
    ensures
        r == spec_s1_sparkles(w, h, time, progress),
{
    proof {
        reveal(spec_s1_sparkles);
    }
    Some(plain(Source::Sparkles { count: 15, time, seed: 42 }, Placement::At(0), 0))
}

/// The character, centred and standing a hundred pixels below the bottom
/// edge: neutral, then serious, then shocked, and zooming in with a small
/// wobble over the second half of the scene.
#[verifier::opaque]
pub open spec fn spec_s1_character(w: u32, h: u32, time: Fixed, progress: Fixed) -> Option<Layer> {
    let expression = if progress.below(Fixed::millionths(300_000)) {
        Expression::Neutral
    } else if progress.below(Fixed::millionths(600_000)) {
        Expression::Serious
    } else {
        Expression::Shocked
    };
    let scale = if Fixed::millionths(500_000).below(progress) {
        hook_zoom(progress.minus(Fixed::millionths(500_000)).times(Fixed::from_int(2)))
    } else {
        Fixed::millionths(1_500_000)
    };
    Some(
        plain(
            Source::Character { expression, scale },
            Placement::Within { base: 0, span: span(w) },
            bottom_row(h, Character::sprite_height(scale), 100),
        ),
    )
}

#[verifier::when_used_as_spec(spec_s1_character)]
pub fn s1_character(w: u32, h: u32, time: Fixed, progress: Fixed) -> (r: Option<Layer>)
    ensures
        r == spec_s1_character(w, h, time, progress),
{
    proof {
        reveal(spec_s1_character);
    }
    let expression = if progress.below(Fixed::millionths(300_000)) {
        Expression::Neutral
    } else if progress.below(Fixed::millionths(600_000)) {
        Expression::Serious
    } else {
        Expression::Shocked
    };
    let scale = if Fixed::millionths(500_000).below(progress) {
        hook_zoom(progress.minus(Fixed::millionths(500_000)).times(Fixed::from_int(2)))
    } else {
        Fixed::millionths(1_500_000)
    };
    Some(
        plain(
            Source::Character { expression, scale },
            Placement::Within { base: 0, span: span(w) },
            bottom_row(h, Character::sprite_height(scale), 100),
        ),
    )
}

/// The title, which pops in after 40% of the scene with a halo and shakes
/// for a moment from 60% on.
#[verifier::opaque]
pub open spec fn spec_s1_title(w: u32, h: u32, time: Fixed, progress: Fixed) -> Option<Layer> {
    if Fixed::millionths(400_000).below(progress) {
        let shake = if Fixed::millionths(600_000).below(progress) {
            AnimatedText::shake_offset(
                progress.minus(Fixed::millionths(600_000)).times(Fixed::from_int(20)),
                Fixed::from_int(10).times(
                    Fixed::one().minus(progress.minus(Fixed::millionths(600_000)).times(Fixed::from_int(2))).upper(Fixed::zero()),
                ),
            )
        } else {
            (0i32, 0i32)
        };
        pop_text(
            w,
            "UNO NO MERCY",
            Fixed::from_int(120),
            PopIn::get_scale(progress.minus(Fixed::millionths(400_000)).over(Fixed::millionths(600_000)), Fixed::millionths(1_200_000)),
            TextStyle::red_bold(),
            Some(Halo { color: Color::rgba(255, 100, 50, 180), radius: 15, intensity: Fixed::millionths(800_000) }),
            shake.0,
            shift(frac(h, 220000), shake.1),
            Fixed::one(),
        )
    } else {
        None
    }
}

#[verifier::when_used_as_spec(spec_s1_title)]
pub fn s1_title(w: u32, h: u32, time: Fixed, progress: Fixed) -> (r: Option<Layer>)
    ensures
        r == spec_s1_title(w, h, time, progress),
{
    proof {
        reveal(spec_s1_title);
    }
    if Fixed::millionths(400_000).below(progress) {
        let shake = if Fixed::millionths(600_000).below(progress) {
            AnimatedText::shake_offset(
                progress.minus(Fixed::millionths(600_000)).times(Fixed::from_int(20)),
                Fixed::from_int(10).times(
                    Fixed::one().minus(progress.minus(Fixed::millionths(600_000)).times(Fixed::from_int(2))).upper(Fixed::zero()),
                ),
            )
        } else {
            (0i32, 0i32)
        };
        pop_text(
            w,
            "UNO NO MERCY",
            Fixed::from_int(120),
            PopIn::get_scale(progress.minus(Fixed::millionths(400_000)).over(Fixed::millionths(600_000)), Fixed::millionths(1_200_000)),
            TextStyle::red_bold(),
            Some(Halo { color: Color::rgba(255, 100, 50, 180), radius: 15, intensity: Fixed::millionths(800_000) }),
            shake.0,
            shift(frac(h, 220000), shake.1),
            Fixed::one(),
        )
    } else {
        None
    }
}

/// The energy wave at the reveal, between 40% and 70% of the scene.
#[verifier::opaque]
pub open spec fn spec_s1_wave(w: u32, h: u32, time: Fixed, progress: Fixed) -> Option<Layer> {
    if Fixed::millionths(400_000).below(progress) && progress.below(Fixed::millionths(700_000)) {
        Some(
            plain(
                Source::EnergyWave {
                    time: progress.minus(Fixed::millionths(400_000)).over(Fixed::millionths(300_000)).times(Fixed::from_int(2)),
                    color: Color::rgba(255, 200, 100, 80),
                },
                Placement::At(0),
                0,
            ),
        )
    } else {
        None
    }
}

#[verifier::when_used_as_spec(spec_s1_wave)]
pub fn s1_wave(w: u32, h: u32, time: Fixed, progress: Fixed) -> (r: Option<Layer>)
    ensures
        r == spec_s1_wave(w, h, time, progress),
{
    proof {
        reveal(spec_s1_wave);
    }
    if Fixed::millionths(400_000).below(progress) && progress.below(Fixed::millionths(700_000)) {
        Some(
            plain(
                Source::EnergyWave {
                    time: progress.minus(Fixed::millionths(400_000)).over(Fixed::millionths(300_000)).times(Fixed::from_int(2)),
                    color: Color::rgba(255, 200, 100, 80),
                },
                Placement::At(0),
                0,
            ),
        )
    } else {
        None
    }
}

/// The white flash at the reveal, between 38% and 45% of the scene: it rises
/// to 70% and falls again.
#[verifier::opaque]
pub open spec fn spec_s1_flash(w: u32, h: u32, time: Fixed, progress: Fixed) -> Option<Layer> {
    if Fixed::millionths(380_000).below(progress) && progress.below(Fixed::millionths(450_000)) {
        Some(
            plain(
                Source::Flash {
                    intensity: there_and_back(progress.minus(Fixed::millionths(380_000)).over(Fixed::millionths(70_000))).times(
                        Fixed::millionths(700_000),
                    ),
                },
                Placement::At(0),
                0,
            ),
        )
    } else {
        None
    }
}

#[verifier::when_used_as_spec(spec_s1_flash)]
pub fn s1_flash(w: u32, h: u32, time: Fixed, progress: Fixed) -> (r: Option<Layer>)
    ensures
        r == spec_s1_flash(w, h, time, progress),
{
    proof {
        reveal(spec_s1_flash);
    }
    if Fixed::millionths(380_000).below(progress) && progress.below(Fixed::millionths(450_000)) {
        Some(
            plain(
                Source::Flash {
                    intensity: there_and_back(progress.minus(Fixed::millionths(380_000)).over(Fixed::millionths(70_000))).times(
                        Fixed::millionths(700_000),
                    ),
                },
                Placement::At(0),
                0,
            ),
        )
    } else {
        None
    }
}

/// The fade from black over the first 15% of the scene.
#[verifier::opaque]
pub open spec fn spec_s1_fade(w: u32, h: u32, time: Fixed, progress: Fixed) -> Option<Layer> {
    if progress.below(Fixed::millionths(150_000)) {
        Some(plain(Source::FadeFromBlack { progress: progress.over(Fixed::millionths(150_000)) }, Placement::At(0), 0))
    } else {
        None
    }
}

#[verifier::when_used_as_spec(spec_s1_fade)]
pub fn s1_fade(w: u32, h: u32, time: Fixed, progress: Fixed) -> (r: Option<Layer>)
    ensures
        r == spec_s1_fade(w, h, time, progress),
{
    proof {
        reveal(spec_s1_fade);
    }
    if progress.below(Fixed::millionths(150_000)) {
        Some(plain(Source::FadeFromBlack { progress: progress.over(Fixed::millionths(150_000)) }, Placement::At(0), 0))
    } else {
        None
    }
}

/// A dark violet backdrop with a vignette.
#[verifier::opaque]
pub open spec fn spec_s2_background(w: u32, h: u32, time: Fixed, progress: Fixed) -> Option<Layer> {
    Some(
        plain(
            Source::SolidVignette { color: Color::rgba(25, 20, 35, 255), strength: Fixed::millionths(500_000) },
            Placement::At(0),
            0,
        ),
    )
}

#[verifier::when_used_as_spec(spec_s2_background)]
pub fn s2_background(w: u32, h: u32, time: Fixed, progress: Fixed) -> (r: Option<Layer>)
    ensures
        r == spec_s2_background(w, h, time, progress),
{
    proof {
        reveal(spec_s2_background);
    }
    Some(
        plain(
            Source::SolidVignette { color: Color::rgba(25, 20, 35, 255), strength: Fixed::millionths(500_000) },
            Placement::At(0),
            0,
        ),
    )
}

/// The character, talking: neutral, serious after four seconds, mischievous after eight.
#[verifier::opaque]
pub open spec fn spec_s2_character(w: u32, h: u32, time: Fixed, progress: Fixed) -> Option<Layer> {
    Some(
        plain(
            Source::Character {
                expression: if time.minus(Fixed::from_int(3)).below(Fixed::from_int(4)) {
                    Expression::Neutral
                } else if time.minus(Fixed::from_int(3)).below(Fixed::from_int(8)) {
                    Expression::Serious
                } else {
                    Expression::Mischievous
                },
                scale: Fixed::millionths(1_200_000),
            },
            Placement::Within { base: 0, span: span(w) },
            bottom_row(h, Character::sprite_height(Fixed::millionths(1_200_000)), 50),
        ),
    )
}

#[verifier::when_used_as_spec(spec_s2_character)]
pub fn s2_character(w: u32, h: u32, time: Fixed, progress: Fixed) -> (r: Option<Layer>)
    ensures
        r == spec_s2_character(w, h, time, progress),
{
    proof {
        reveal(spec_s2_character);
    }
    Some(
        plain(
            Source::Character {
                expression: if time.minus(Fixed::from_int(3)).below(Fixed::from_int(4)) {
                    Expression::Neutral
                } else if time.minus(Fixed::from_int(3)).below(Fixed::from_int(8)) {
                    Expression::Serious
                } else {
                    Expression::Mischievous
                },
                scale: Fixed::millionths(1_200_000),
            },
            Placement::Within { base: 0, span: span(w) },
            bottom_row(h, Character::sprite_height(Fixed::millionths(1_200_000)), 50),
        ),
    )
}

/// Fifteen flying cards that slide in from above after 10% of the scene, at
/// one and a half times their size and 70% of their alpha; they are dealt anew
/// every half second.
#[verifier::opaque]
pub open spec fn spec_s2_flying(w: u32, h: u32, time: Fixed, progress: Fixed) -> Option<Layer> {
    if Fixed::millionths(100_000).below(progress) {
        Some(
            Layer {
                source: Source::FlyingCards {
                    width: 100,
                    height: 150,
                    cards: 15,
                    seed: seconds_seed(time.times(Fixed::from_int(2))),
                },
                scale: Fixed::millionths(1_500_000),
                x: Placement::At(50),
                y: Slide::along(
                    neg(layer_side(600, Fixed::millionths(1_500_000))),
                    frac(h, 150000),
                    Easing::ease_out(progress.minus(Fixed::millionths(100_000)).times(Fixed::from_int(2)).lower(Fixed::one())),
                ),
                alpha: Fixed::millionths(700_000),
            },
        )
    } else {
        None
    }
}

#[verifier::when_used_as_spec(spec_s2_flying)]
pub fn s2_flying(w: u32, h: u32, time: Fixed, progress: Fixed) -> (r: Option<Layer>)
    ensures
        r == spec_s2_flying(w, h, time, progress),
{
    proof {
        reveal(spec_s2_flying);
    }
    if Fixed::millionths(100_000).below(progress) {
        Some(
            Layer {
                source: Source::FlyingCards {
                    width: 100,
                    height: 150,
                    cards: 15,
                    seed: seconds_seed(time.times(Fixed::from_int(2))),
                },
                scale: Fixed::millionths(1_500_000),
                x: Placement::At(50),
                y: Slide::along(
                    neg(layer_side(600, Fixed::millionths(1_500_000))),
                    frac(h, 150000),
                    Easing::ease_out(progress.minus(Fixed::millionths(100_000)).times(Fixed::from_int(2)).lower(Fixed::one())),
                ),
                alpha: Fixed::millionths(700_000),
            },
        )
    } else {
        None
    }
}

/// The fact of index `i`, which pops in at its threshold on its own row.
#[verifier::opaque]
pub open spec fn spec_s2_fact(w: u32, h: u32, time: Fixed, progress: Fixed, i: u32) -> Option<Layer> {
    if fact_threshold(i).below(progress) {
        pop_text(
            w,
            fact_text(i),
            Fixed::from_int(80),
            PopIn::get_scale(
                progress.minus(fact_threshold(i)).over(Fixed::millionths(150_000)).lower(Fixed::one()),
                Fixed::millionths(800_000),
            ),
            TextStyle::yellow_impact(),
            None,
            0,
            frac(h, fact_row(i)),
            Fixed::one(),
        )
    } else {
        None
    }
}

#[verifier::when_used_as_spec(spec_s2_fact)]
pub fn s2_fact(w: u32, h: u32, time: Fixed, progress: Fixed, i: u32) -> (r: Option<Layer>)
    ensures
        r == spec_s2_fact(w, h, time, progress, i),
{
    proof {
        reveal(spec_s2_fact);
    }
    if fact_threshold(i).below(progress) {
        pop_text(
            w,
            fact_text(i),
            Fixed::from_int(80),
            PopIn::get_scale(
                progress.minus(fact_threshold(i)).over(Fixed::millionths(150_000)).lower(Fixed::one()),
                Fixed::millionths(800_000),
            ),
            TextStyle::yellow_impact(),
            None,
            0,
            frac(h, fact_row(i)),
            Fixed::one(),
        )
    } else {
        None
    }
}

/// The skull for the eliminated, which pops in over the last quarter of the scene.
#[verifier::opaque]
pub open spec fn spec_s2_skull(w: u32, h: u32, time: Fixed, progress: Fixed) -> Option<Layer> {
    if Fixed::millionths(750_000).below(progress) {
        pop_text(
            w,
            "X_X",
            Fixed::from_int(100),
            PopIn::get_scale(progress.minus(Fixed::millionths(750_000)).over(Fixed::millionths(250_000)), Fixed::millionths(1_500_000)),
            skull_style(),
            None,
            0,
            frac(h, 450000),
            Fixed::one(),
        )
    } else {
        None
    }
}

#[verifier::when_used_as_spec(spec_s2_skull)]
pub fn s2_skull(w: u32, h: u32, time: Fixed, progress: Fixed) -> (r: Option<Layer>)
    ensures
        r == spec_s2_skull(w, h, time, progress),
{
    proof {
        reveal(spec_s2_skull);
    }
    if Fixed::millionths(750_000).below(progress) {
        pop_text(
            w,
            "X_X",
            Fixed::from_int(100),
            PopIn::get_scale(progress.minus(Fixed::millionths(750_000)).over(Fixed::millionths(250_000)), Fixed::millionths(1_500_000)),
            skull_style(),
            None,
            0,
            frac(h, 450000),
            Fixed::one(),
        )
    } else {
        None
    }
}

/// The themed backdrop.
#[verifier::opaque]
pub open spec fn spec_s3_background(w: u32, h: u32, time: Fixed, progress: Fixed) -> Option<Layer> {
    Some(plain(Source::UnoTheme { time }, Placement::At(0), 0))
}

#[verifier::when_used_as_spec(spec_s3_background)]
pub fn s3_background(w: u32, h: u32, time: Fixed, progress: Fixed) -> (r: Option<Layer>)
    ensures
        r == spec_s3_background(w, h, time, progress),
{
    proof {
        reveal(spec_s3_background);
    }
    Some(plain(Source::UnoTheme { time }, Placement::At(0), 0))
}

/// The character at the right edge, reacting: neutral, serious after three
/// seconds, shocked after six, mischievous after ten.
#[verifier::opaque]
pub open spec fn spec_s3_character(w: u32, h: u32, time: Fixed, progress: Fixed) -> Option<Layer> {
    Some(
        plain(
            Source::Character {
                expression: if time.minus(Fixed::from_int(15)).below(Fixed::from_int(3)) {
                    Expression::Neutral
                } else if time.minus(Fixed::from_int(15)).below(Fixed::from_int(6)) {
                    Expression::Serious
                } else if time.minus(Fixed::from_int(15)).below(Fixed::from_int(10)) {
                    Expression::Shocked
                } else {
                    Expression::Mischievous
                },
                scale: Fixed::one(),
            },
            Placement::At(right_edge(w, Character::sprite_width(Fixed::one()), 50)),
            bottom_row(h, Character::sprite_height(Fixed::one()), 0),
        ),
    )
}

#[verifier::when_used_as_spec(spec_s3_character)]
pub fn s3_character(w: u32, h: u32, time: Fixed, progress: Fixed) -> (r: Option<Layer>)
    ensures
        r == spec_s3_character(w, h, time, progress),
{
    proof {
        reveal(spec_s3_character);
    }
    Some(
        plain(
            Source::Character {
                expression: if time.minus(Fixed::from_int(15)).below(Fixed::from_int(3)) {
                    Expression::Neutral
                } else if time.minus(Fixed::from_int(15)).below(Fixed::from_int(6)) {
                    Expression::Serious
                } else if time.minus(Fixed::from_int(15)).below(Fixed::from_int(10)) {
                    Expression::Shocked
                } else {
                    Expression::Mischievous
                },
                scale: Fixed::one(),
            },
            Placement::At(right_edge(w, Character::sprite_width(Fixed::one()), 50)),
            bottom_row(h, Character::sprite_height(Fixed::one()), 0),
        ),
    )
}

/// The draw card of index `i`, which flies in from the left during its window
/// of the scene, each larger than the one before.
#[verifier::opaque]
pub open spec fn spec_s3_card(w: u32, h: u32, time: Fixed, progress: Fixed, i: u32) -> Option<Layer> {
    if draw_start(i).at_most(progress) && progress.below(draw_end(i)) {
        Some(
            Layer {
                source: Source::Card { card: draw_card(i), width: 150, height: 220 },
                scale: draw_scale(i),
                x: Placement::At(
                    Slide::along(
                        neg(layer_side(150, draw_scale(i))),
                        frac(w, 250000),
                        Easing::ease_out(
                            progress.minus(draw_start(i)).over(draw_end(i).minus(draw_start(i))),
                        ),
                    ),
                ),
                y: frac(h, 350000),
                alpha: Fixed::one(),
            },
        )
    } else {
        None
    }
}

#[verifier::when_used_as_spec(spec_s3_card)]
pub fn s3_card(w: u32, h: u32, time: Fixed, progress: Fixed, i: u32) -> (r: Option<Layer>)
    ensures
        r == spec_s3_card(w, h, time, progress, i),
{
    proof {
        reveal(spec_s3_card);
    }
    if draw_start(i).at_most(progress) && progress.below(draw_end(i)) {
        Some(
            Layer {
                source: Source::Card { card: draw_card(i), width: 150, height: 220 },
                scale: draw_scale(i),
                x: Placement::At(
                    Slide::along(
                        neg(layer_side(150, draw_scale(i))),
                        frac(w, 250000),
                        Easing::ease_out(
                            progress.minus(draw_start(i)).over(draw_end(i).minus(draw_start(i))),
                        ),
                    ),
                ),
                y: frac(h, 350000),
                alpha: Fixed::one(),
            },
        )
    } else {
        None
    }
}

/// The label of the draw card of index `i`, shown during the same window.
#[verifier::opaque]
pub open spec fn spec_s3_label(w: u32, h: u32, time: Fixed, progress: Fixed, i: u32) -> Option<Layer> {
    if draw_start(i).at_most(progress) && progress.below(draw_end(i)) {
        Some(
            centred_text(
                w,
                draw_label(i),
                Fixed::from_int(100).times(draw_scale(i)),
                TextStyle::yellow_impact(),
                None,
                0,
                frac(h, 150000),
                Fixed::one(),
            ),
        )
    } else {
        None
    }
}

#[verifier::when_used_as_spec(spec_s3_label)]
pub fn s3_label(w: u32, h: u32, time: Fixed, progress: Fixed, i: u32) -> (r: Option<Layer>)
    ensures
        r == spec_s3_label(w, h, time, progress, i),
{
    proof {
        reveal(spec_s3_label);
    }
    if draw_start(i).at_most(progress) && progress.below(draw_end(i)) {
        Some(
            centred_text(
                w,
                draw_label(i),
                Fixed::from_int(100).times(draw_scale(i)),
                TextStyle::yellow_impact(),
                None,
                0,
                frac(h, 150000),
                Fixed::one(),
            ),
        )
    } else {
        None
    }
}

/// The stacking sum over the last 30% of the scene, and in its second half
/// the shaking outcry.
#[verifier::opaque]
pub open spec fn spec_s3_equation(w: u32, h: u32, time: Fixed, progress: Fixed) -> Option<Layer> {
    if Fixed::millionths(700_000).at_most(progress) {
        if progress.minus(Fixed::millionths(700_000)).over(Fixed::millionths(300_000)).below(Fixed::millionths(500_000)) {
            Some(
                centred_text(
                    w,
                    "4 + 6 = 10",
                    Fixed::from_int(90),
                    TextStyle::white_with_black_outline(),
                    None,
                    0,
                    frac(h, 200000),
                    Fixed::one(),
                ),
            )
        } else {
            Some(
                centred_text(
                    w,
                    "THEY DRAW EVERYTHING!",
                    Fixed::from_int(70),
                    TextStyle::red_bold(),
                    None,
                    AnimatedText::shake_offset(
                        progress.minus(Fixed::millionths(700_000)).over(Fixed::millionths(300_000)).times(Fixed::from_int(10)),
                        Fixed::from_int(5),
                    ).0,
                    shift(
                        frac(h, 200000),
                        AnimatedText::shake_offset(
                            progress.minus(Fixed::millionths(700_000)).over(Fixed::millionths(300_000)).times(Fixed::from_int(10)),
                            Fixed::from_int(5),
                        ).1,
                    ),
                    Fixed::one(),
                ),
            )
        }
    } else {
        None
    }
}

#[verifier::when_used_as_spec(spec_s3_equation)]
pub fn s3_equation(w: u32, h: u32, time: Fixed, progress: Fixed) -> (r: Option<Layer>)
    ensures
        r == spec_s3_equation(w, h, time, progress),
{
    proof {
        reveal(spec_s3_equation);
    }
    if Fixed::millionths(700_000).at_most(progress) {
        if progress.minus(Fixed::millionths(700_000)).over(Fixed::millionths(300_000)).below(Fixed::millionths(500_000)) {
            Some(
                centred_text(
                    w,
                    "4 + 6 = 10",
                    Fixed::from_int(90),
                    TextStyle::white_with_black_outline(),
                    None,
                    0,
                    frac(h, 200000),
                    Fixed::one(),
                ),
            )
        } else {
            Some(
                centred_text(
                    w,
                    "THEY DRAW EVERYTHING!",
                    Fixed::from_int(70),
                    TextStyle::red_bold(),
                    None,
                    AnimatedText::shake_offset(
                        progress.minus(Fixed::millionths(700_000)).over(Fixed::millionths(300_000)).times(Fixed::from_int(10)),
                        Fixed::from_int(5),
                    ).0,
                    shift(
                        frac(h, 200000),
                        AnimatedText::shake_offset(
                            progress.minus(Fixed::millionths(700_000)).over(Fixed::millionths(300_000)).times(Fixed::from_int(10)),
                            Fixed::from_int(5),
                        ).1,
                    ),
                    Fixed::one(),
                ),
            )
        }
    } else {
        None
    }
}

/// The stack of a red draw-four and a draw-six over the last 30% of the scene.
#[verifier::opaque]
pub open spec fn spec_s3_stack(w: u32, h: u32, time: Fixed, progress: Fixed) -> Option<Layer> {
    if Fixed::millionths(700_000).at_most(progress) {
        Some(
            plain(
                Source::CardStack {
                    first: Card::new(CardColor::Red, CardType::DrawFour),
                    second: Card::new(CardColor::Wild, CardType::DrawSix),
                    width: 100,
                    height: 150,
                    offset: 20,
                },
                Placement::Within { base: 0, span: span(w) },
                frac(h, 400000),
            ),
        )
    } else {
        None
    }
}

#[verifier::when_used_as_spec(spec_s3_stack)]
pub fn s3_stack(w: u32, h: u32, time: Fixed, progress: Fixed) -> (r: Option<Layer>)
    ensures
        r == spec_s3_stack(w, h, time, progress),
{
    proof {
        reveal(spec_s3_stack);
    }
    if Fixed::millionths(700_000).at_most(progress) {
        Some(
            plain(
                Source::CardStack {
                    first: Card::new(CardColor::Red, CardType::DrawFour),
                    second: Card::new(CardColor::Wild, CardType::DrawSix),
                    width: 100,
                    height: 150,
                    offset: 20,
                },
                Placement::Within { base: 0, span: span(w) },
                frac(h, 400000),
            ),
        )
    } else {
        None
    }
}

/// A spotlight that wanders slowly.
#[verifier::opaque]
pub open spec fn spec_s4_background(w: u32, h: u32, time: Fixed, progress: Fixed) -> Option<Layer> {
    Some(
        plain(
            Source::Spotlight {
                x: Fixed::millionths(500_000).plus(time.times(Fixed::millionths(400_000)).sine().times(Fixed::millionths(150_000))),
                y: Fixed::millionths(400_000).plus(time.times(Fixed::millionths(300_000)).cosine().times(Fixed::millionths(50_000))),
                intensity: Fixed::millionths(900_000),
            },
            Placement::At(0),
            0,
        ),
    )
}

#[verifier::when_used_as_spec(spec_s4_background)]
pub fn s4_background(w: u32, h: u32, time: Fixed, progress: Fixed) -> (r: Option<Layer>)
    ensures
        r == spec_s4_background(w, h, time, progress),
{
    proof {
        reveal(spec_s4_background);
    }
    Some(
        plain(
            Source::Spotlight {
                x: Fixed::millionths(500_000).plus(time.times(Fixed::millionths(400_000)).sine().times(Fixed::millionths(150_000))),
                y: Fixed::millionths(400_000).plus(time.times(Fixed::millionths(300_000)).cosine().times(Fixed::millionths(50_000))),
                intensity: Fixed::millionths(900_000),
            },
            Placement::At(0),
            0,
        ),
    )
}

/// Ten sparkles.
#[verifier::opaque]
pub open spec fn spec_s4_sparkles(w: u32, h: u32, time: Fixed, progress: Fixed) -> Option<Layer> {
    Some(plain(Source::Sparkles { count: 10, time, seed: 123 }, Placement::At(0), 0))
}

#[verifier::when_used_as_spec(spec_s4_sparkles)]
pub fn s4_sparkles(w: u32, h: u32, time: Fixed, progress: Fixed) -> (r: Option<Layer>)
    ensures
        r == spec_s4_sparkles(w, h, time, progress),
{
    proof {
        reveal(spec_s4_sparkles);
    }
    Some(plain(Source::Sparkles { count: 10, time, seed: 123 }, Placement::At(0), 0))
}

/// The character, serious, whispering after four seconds, mind blown after eight.
#[verifier::opaque]
pub open spec fn spec_s4_character(w: u32, h: u32, time: Fixed, progress: Fixed) -> Option<Layer> {
    Some(
        plain(
            Source::Character {
                expression: if time.minus(Fixed::from_int(30)).below(Fixed::from_int(4)) {
                    Expression::Serious
                } else if time.minus(Fixed::from_int(30)).below(Fixed::from_int(8)) {
                    Expression::Whispering
                } else {
                    Expression::MindBlown
                },
                scale: Fixed::millionths(1_300_000),
            },
            Placement::Within { base: 0, span: span(w) },
            bottom_row(h, Character::sprite_height(Fixed::millionths(1_300_000)), 80),
        ),
    )
}

#[verifier::when_used_as_spec(spec_s4_character)]
pub fn s4_character(w: u32, h: u32, time: Fixed, progress: Fixed) -> (r: Option<Layer>)
    ensures
        r == spec_s4_character(w, h, time, progress),
{
    proof {
        reveal(spec_s4_character);
    }
    Some(
        plain(
            Source::Character {
                expression: if time.minus(Fixed::from_int(30)).below(Fixed::from_int(4)) {
                    Expression::Serious
                } else if time.minus(Fixed::from_int(30)).below(Fixed::from_int(8)) {
                    Expression::Whispering
                } else {
                    Expression::MindBlown
                },
                scale: Fixed::millionths(1_300_000),
            },
            Placement::Within { base: 0, span: span(w) },
            bottom_row(h, Character::sprite_height(Fixed::millionths(1_300_000)), 80),
        ),
    )
}

/// The announcement, which pops in and shakes less and less over the first 30% of the scene.
#[verifier::opaque]
pub open spec fn spec_s4_twist(w: u32, h: u32, time: Fixed, progress: Fixed) -> Option<Layer> {
    if progress.below(Fixed::millionths(300_000)) {
        pop_text(
            w,
            "PLOT TWIST",
            Fixed::from_int(100),
            PopIn::get_scale(progress.over(Fixed::millionths(300_000)), Fixed::millionths(1_500_000)),
            TextStyle::red_bold(),
            None,
            AnimatedText::shake_offset(
                time.times(Fixed::from_int(15)),
                Fixed::from_int(4).times(Fixed::one().minus(progress.over(Fixed::millionths(300_000)))),
            ).0,
            shift(
                frac(h, 150000),
                AnimatedText::shake_offset(
                    time.times(Fixed::from_int(15)),
                    Fixed::from_int(4).times(Fixed::one().minus(progress.over(Fixed::millionths(300_000)))),
                ).1,
            ),
            Fixed::one(),
        )
    } else {
        None
    }
}

#[verifier::when_used_as_spec(spec_s4_twist)]
pub fn s4_twist(w: u32, h: u32, time: Fixed, progress: Fixed) -> (r: Option<Layer>)
    ensures
        r == spec_s4_twist(w, h, time, progress),
{
    proof {
        reveal(spec_s4_twist);
    }
    if progress.below(Fixed::millionths(300_000)) {
        pop_text(
            w,
            "PLOT TWIST",
            Fixed::from_int(100),
            PopIn::get_scale(progress.over(Fixed::millionths(300_000)), Fixed::millionths(1_500_000)),
            TextStyle::red_bold(),
            None,
            AnimatedText::shake_offset(
                time.times(Fixed::from_int(15)),
                Fixed::from_int(4).times(Fixed::one().minus(progress.over(Fixed::millionths(300_000)))),
            ).0,
            shift(
                frac(h, 150000),
                AnimatedText::shake_offset(
                    time.times(Fixed::from_int(15)),
                    Fixed::from_int(4).times(Fixed::one().minus(progress.over(Fixed::millionths(300_000)))),
                ).1,
            ),
            Fixed::one(),
        )
    } else {
        None
    }
}

/// The red draw-four, which rises from the bottom between 25% and 55% of the scene.
#[verifier::opaque]
pub open spec fn spec_s4_card(w: u32, h: u32, time: Fixed, progress: Fixed) -> Option<Layer> {
    if Fixed::millionths(250_000).at_most(progress) && progress.below(Fixed::millionths(550_000)) {
        Some(
            plain(
                Source::Card {
                    card: Card::new(CardColor::Red, CardType::DrawFour),
                    width: 180,
                    height: 270,
                },
                Placement::At(frac(w, 200000)),
                rising_row(h, progress),
            ),
        )
    } else {
        None
    }
}

#[verifier::when_used_as_spec(spec_s4_card)]
pub fn s4_card(w: u32, h: u32, time: Fixed, progress: Fixed) -> (r: Option<Layer>)
    ensures
        r == spec_s4_card(w, h, time, progress),
{
    proof {
        reveal(spec_s4_card);
    }
    if Fixed::millionths(250_000).at_most(progress) && progress.below(Fixed::millionths(550_000)) {
        Some(
            plain(
                Source::Card {
                    card: Card::new(CardColor::Red, CardType::DrawFour),
                    width: 180,
                    height: 270,
                },
                Placement::At(frac(w, 200000)),
                rising_row(h, progress),
            ),
        )
    } else {
        None
    }
}

/// The remark beside the card, over the second half of its window.
#[verifier::opaque]
pub open spec fn spec_s4_remark(w: u32, h: u32, time: Fixed, progress: Fixed) -> Option<Layer> {
    if Fixed::millionths(250_000).at_most(progress) && progress.below(Fixed::millionths(550_000)) && Fixed::millionths(500_000).below(
        progress.minus(Fixed::millionths(250_000)).over(Fixed::millionths(300_000)),
    ) {
        Some(
            Layer {
                source: Source::Text {
                    text: "HAS A COLOR!",
                    size: Fixed::from_int(60),
                    style: TextStyle::yellow_impact(),
                    halo: None,
                },
                scale: Fixed::one(),
                x: Placement::At(shift(frac(w, 200000), 210)),
                y: shift(rising_row(h, progress), 100),
                alpha: Fixed::one(),
            },
        )
    } else {
        None
    }
}

#[verifier::when_used_as_spec(spec_s4_remark)]
pub fn s4_remark(w: u32, h: u32, time: Fixed, progress: Fixed) -> (r: Option<Layer>)
    ensures
        r == spec_s4_remark(w, h, time, progress),
{
    proof {
        reveal(spec_s4_remark);
    }
    if Fixed::millionths(250_000).at_most(progress) && progress.below(Fixed::millionths(550_000)) && Fixed::millionths(500_000).below(
        progress.minus(Fixed::millionths(250_000)).over(Fixed::millionths(300_000)),
    ) {
        Some(
            Layer {
                source: Source::Text {
                    text: "HAS A COLOR!",
                    size: Fixed::from_int(60),
                    style: TextStyle::yellow_impact(),
                    halo: None,
                },
                scale: Fixed::one(),
                x: Placement::At(shift(frac(w, 200000), 210)),
                y: shift(rising_row(h, progress), 100),
                alpha: Fixed::one(),
            },
        )
    } else {
        None
    }
}

/// The header of the wild cards, from 55% of the scene on.
#[verifier::opaque]
pub open spec fn spec_s4_header(w: u32, h: u32, time: Fixed, progress: Fixed) -> Option<Layer> {
    if Fixed::millionths(550_000).at_most(progress) {
        Some(
            centred_text(
                w,
                "THE REAL WILDS:",
                Fixed::from_int(50),
                TextStyle::white_with_black_outline(),
                None,
                0,
                frac(h, 120000),
                Fixed::one(),
            ),
        )
    } else {
        None
    }
}

#[verifier::when_used_as_spec(spec_s4_header)]
pub fn s4_header(w: u32, h: u32, time: Fixed, progress: Fixed) -> (r: Option<Layer>)
    ensures
        r == spec_s4_header(w, h, time, progress),
{
    proof {
        reveal(spec_s4_header);
    }
    if Fixed::millionths(550_000).at_most(progress) {
        Some(
            centred_text(
                w,
                "THE REAL WILDS:",
                Fixed::from_int(50),
                TextStyle::white_with_black_outline(),
                None,
                0,
                frac(h, 120000),
                Fixed::one(),
            ),
        )
    } else {
        None
    }
}

/// The wild card of index `i`, which pops in once the last part of the scene
/// has run for 0.15 times its index; the first one has no time to appear in.
#[verifier::opaque]
pub open spec fn spec_s4_wild(w: u32, h: u32, time: Fixed, progress: Fixed, i: u32) -> Option<Layer> {
    if Fixed::millionths(550_000).at_most(progress) && Fixed::zero().below(wild_time(progress, i)) && Fixed::millionths(100_000).below(
        wild_scale(progress, i),
    ) {
        Some(
            Layer {
                source: Source::Card { card: wild_card(i), width: 100, height: 150 },
                scale: wild_scale(progress, i),
                x: Placement::At(wild_column(w, progress, i)),
                y: frac(h, 300000),
                alpha: Fixed::one(),
            },
        )
    } else {
        None
    }
}

#[verifier::when_used_as_spec(spec_s4_wild)]
pub fn s4_wild(w: u32, h: u32, time: Fixed, progress: Fixed, i: u32) -> (r: Option<Layer>)
    ensures
        r == spec_s4_wild(w, h, time, progress, i),
{
    proof {
        reveal(spec_s4_wild);
    }
    if Fixed::millionths(550_000).at_most(progress) && Fixed::zero().below(wild_time(progress, i)) && Fixed::millionths(100_000).below(
        wild_scale(progress, i),
    ) {
        Some(
            Layer {
                source: Source::Card { card: wild_card(i), width: 100, height: 150 },
                scale: wild_scale(progress, i),
                x: Placement::At(wild_column(w, progress, i)),
                y: frac(h, 300000),
                alpha: Fixed::one(),
            },
        )
    } else {
        None
    }
}

/// The label under the wild card of index `i`.
#[verifier::opaque]
pub open spec fn spec_s4_wild_label(w: u32, h: u32, time: Fixed, progress: Fixed, i: u32) -> Option<Layer> {
    if Fixed::millionths(550_000).at_most(progress) && Fixed::zero().below(wild_time(progress, i)) && Fixed::millionths(100_000).below(
        wild_scale(progress, i),
    ) {
        Some(
            Layer {
                source: Source::Text {
                    text: wild_label(i),
                    size: Fixed::from_int(28),
                    style: TextStyle::blue_clean(),
                    halo: None,
                },
                scale: Fixed::one(),
                x: Placement::Within {
                    base: wild_column(w, progress, i),
                    span: span(layer_side(100, wild_scale(progress, i))),
                },
                y: shift(shift(frac(h, 300000), span(layer_side(150, wild_scale(progress, i)))), 10),
                alpha: Fixed::one(),
            },
        )
    } else {
        None
    }
}

#[verifier::when_used_as_spec(spec_s4_wild_label)]
pub fn s4_wild_label(w: u32, h: u32, time: Fixed, progress: Fixed, i: u32) -> (r: Option<Layer>)
    ensures
        r == spec_s4_wild_label(w, h, time, progress, i),
{
    proof {
        reveal(spec_s4_wild_label);
    }
    if Fixed::millionths(550_000).at_most(progress) && Fixed::zero().below(wild_time(progress, i)) && Fixed::millionths(100_000).below(
        wild_scale(progress, i),
    ) {
        Some(
            Layer {
                source: Source::Text {
                    text: wild_label(i),
                    size: Fixed::from_int(28),
                    style: TextStyle::blue_clean(),
                    halo: None,
                },
                scale: Fixed::one(),
                x: Placement::Within {
                    base: wild_column(w, progress, i),
                    span: span(layer_side(100, wild_scale(progress, i))),
                },
                y: shift(shift(frac(h, 300000), span(layer_side(150, wild_scale(progress, i)))), 10),
                alpha: Fixed::one(),
            },
        )
    } else {
        None
    }
}

/// The chaos backdrop.
#[verifier::opaque]
pub open spec fn spec_s5_background(w: u32, h: u32, time: Fixed, progress: Fixed) -> Option<Layer> {
    Some(plain(Source::Chaos { time, seed: 42 }, Placement::At(0), 0))
}

#[verifier::when_used_as_spec(spec_s5_background)]
pub fn s5_background(w: u32, h: u32, time: Fixed, progress: Fixed) -> (r: Option<Layer>)
    ensures
        r == spec_s5_background(w, h, time, progress),
{
    proof {
        reveal(spec_s5_background);
    }
    Some(plain(Source::Chaos { time, seed: 42 }, Placement::At(0), 0))
}

/// Sparkles, from 25 of them to 55 as the scene goes on.
#[verifier::opaque]
pub open spec fn spec_s5_sparkles(w: u32, h: u32, time: Fixed, progress: Fixed) -> Option<Layer> {
    Some(
        plain(
            Source::Sparkles {
                count: (25 + progress.times(Fixed::from_int(30)).extent() % 1000) as u32,
                time,
                seed: 99,
            },
            Placement::At(0),
            0,
        ),
    )
}

#[verifier::when_used_as_spec(spec_s5_sparkles)]
pub fn s5_sparkles(w: u32, h: u32, time: Fixed, progress: Fixed) -> (r: Option<Layer>)
    ensures
        r == spec_s5_sparkles(w, h, time, progress),
{
    proof {
        reveal(spec_s5_sparkles);
    }
    Some(
        plain(
            Source::Sparkles {
                count: (25 + progress.times(Fixed::from_int(30)).extent() % 1000) as u32,
                time,
                seed: 99,
            },
            Placement::At(0),
            0,
        ),
    )
}

/// An energy wave during every third half second.
#[verifier::opaque]
pub open spec fn spec_s5_wave(w: u32, h: u32, time: Fixed, progress: Fixed) -> Option<Layer> {
    if time.minus(Fixed::from_int(45)).times(Fixed::from_int(2)).extent() % 3 == 0 {
        Some(
            plain(
                Source::EnergyWave { time: time.minus(Fixed::from_int(45)), color: Color::rgba(255, 100, 100, 50) },
                Placement::At(0),
                0,
            ),
        )
    } else {
        None
    }
}

#[verifier::when_used_as_spec(spec_s5_wave)]
pub fn s5_wave(w: u32, h: u32, time: Fixed, progress: Fixed) -> (r: Option<Layer>)
    ensures
        r == spec_s5_wave(w, h, time, progress),
{
    proof {
        reveal(spec_s5_wave);
    }
    if time.minus(Fixed::from_int(45)).times(Fixed::from_int(2)).extent() % 3 == 0 {
        Some(
            plain(
                Source::EnergyWave { time: time.minus(Fixed::from_int(45)), color: Color::rgba(255, 100, 100, 50) },
                Placement::At(0),
                0,
            ),
        )
    } else {
        None
    }
}

/// The character at the left edge, shaking with the screen: mischievous,
/// shocked after three seconds, mind blown after eight.
#[verifier::opaque]
pub open spec fn spec_s5_character(w: u32, h: u32, time: Fixed, progress: Fixed) -> Option<Layer> {
    Some(
        plain(
            Source::Character {
                expression: if time.minus(Fixed::from_int(45)).below(Fixed::from_int(3)) {
                    Expression::Mischievous
                } else if time.minus(Fixed::from_int(45)).below(Fixed::from_int(8)) {
                    Expression::Shocked
                } else {
                    Expression::MindBlown
                },
                scale: Fixed::millionths(900_000),
            },
            Placement::At(shift(50, chaos_shake(time, progress).0)),
            shift(
                bottom_row(h, Character::sprite_height(Fixed::millionths(900_000)), 0),
                chaos_shake(time, progress).1,
            ),
        ),
    )
}

#[verifier::when_used_as_spec(spec_s5_character)]
pub fn s5_character(w: u32, h: u32, time: Fixed, progress: Fixed) -> (r: Option<Layer>)
    ensures
        r == spec_s5_character(w, h, time, progress),
{
    proof {
        reveal(spec_s5_character);
    }
    Some(
        plain(
            Source::Character {
                expression: if time.minus(Fixed::from_int(45)).below(Fixed::from_int(3)) {
                    Expression::Mischievous
                } else if time.minus(Fixed::from_int(45)).below(Fixed::from_int(8)) {
                    Expression::Shocked
                } else {
                    Expression::MindBlown
                },
                scale: Fixed::millionths(900_000),
            },
            Placement::At(shift(50, chaos_shake(time, progress).0)),
            shift(
                bottom_row(h, Character::sprite_height(Fixed::millionths(900_000)), 0),
                chaos_shake(time, progress).1,
            ),
        ),
    )
}

/// The card of the rule of index `i`, which slides in from the right over the
/// first half of its window of the scene.
#[verifier::opaque]
pub open spec fn spec_s5_card(w: u32, h: u32, time: Fixed, progress: Fixed, i: u32) -> Option<Layer> {
    if rule_start(i).at_most(progress) && progress.below(rule_end(i)) {
        Some(
            plain(
                Source::Card { card: rule_card(i), width: 150, height: 220 },
                Placement::At(
                    shift(
                        Slide::along(
                            span(w),
                            Slide::rest(span(w), 150),
                            Easing::ease_out(
                                rule_progress(progress, i).lower(Fixed::millionths(500_000)).times(Fixed::from_int(2)),
                            ),
                        ),
                        chaos_shake(time, progress).0,
                    ),
                ),
                shift(frac(h, 300000), chaos_shake(time, progress).1),
            ),
        )
    } else {
        None
    }
}

#[verifier::when_used_as_spec(spec_s5_card)]
pub fn s5_card(w: u32, h: u32, time: Fixed, progress: Fixed, i: u32) -> (r: Option<Layer>)
    ensures
        r == spec_s5_card(w, h, time, progress, i),
{
    proof {
        reveal(spec_s5_card);
    }
    if rule_start(i).at_most(progress) && progress.below(rule_end(i)) {
        Some(
            plain(
                Source::Card { card: rule_card(i), width: 150, height: 220 },
                Placement::At(
                    shift(
                        Slide::along(
                            span(w),
                            Slide::rest(span(w), 150),
                            Easing::ease_out(
                                rule_progress(progress, i).lower(Fixed::millionths(500_000)).times(Fixed::from_int(2)),
                            ),
                        ),
                        chaos_shake(time, progress).0,
                    ),
                ),
                shift(frac(h, 300000), chaos_shake(time, progress).1),
            ),
        )
    } else {
        None
    }
}

/// The text of the rule of index `i`, which pops in after a fifth of its window.
#[verifier::opaque]
pub open spec fn spec_s5_rule(w: u32, h: u32, time: Fixed, progress: Fixed, i: u32) -> Option<Layer> {
    if rule_start(i).at_most(progress) && progress.below(rule_end(i)) && Fixed::millionths(200_000).below(
        rule_progress(progress, i),
    ) {
        pop_text(
            w,
            rule_text(i),
            Fixed::from_int(70),
            PopIn::get_scale(
                rule_progress(progress, i).minus(Fixed::millionths(200_000)).over(Fixed::millionths(300_000)).lower(Fixed::one()),
                Fixed::one(),
            ),
            TextStyle::yellow_impact(),
            None,
            chaos_shake(time, progress).0,
            shift(frac(h, 150000), chaos_shake(time, progress).1),
            Fixed::one(),
        )
    } else {
        None
    }
}

#[verifier::when_used_as_spec(spec_s5_rule)]
pub fn s5_rule(w: u32, h: u32, time: Fixed, progress: Fixed, i: u32) -> (r: Option<Layer>)
    ensures
        r == spec_s5_rule(w, h, time, progress, i),
{
    proof {
        reveal(spec_s5_rule);
    }
    if rule_start(i).at_most(progress) && progress.below(rule_end(i)) && Fixed::millionths(200_000).below(
        rule_progress(progress, i),
    ) {
        pop_text(
            w,
            rule_text(i),
            Fixed::from_int(70),
            PopIn::get_scale(
                rule_progress(progress, i).minus(Fixed::millionths(200_000)).over(Fixed::millionths(300_000)).lower(Fixed::one()),
                Fixed::one(),
            ),
            TextStyle::yellow_impact(),
            None,
            chaos_shake(time, progress).0,
            shift(frac(h, 150000), chaos_shake(time, progress).1),
            Fixed::one(),
        )
    } else {
        None
    }
}

/// A still spotlight.
#[verifier::opaque]
pub open spec fn spec_s6_background(w: u32, h: u32, time: Fixed, progress: Fixed) -> Option<Layer> {
    Some(
        plain(
            Source::Spotlight { x: Fixed::millionths(500_000), y: Fixed::millionths(300_000), intensity: Fixed::millionths(600_000) },
            Placement::At(0),
            0,
        ),
    )
}

#[verifier::when_used_as_spec(spec_s6_background)]
pub fn s6_background(w: u32, h: u32, time: Fixed, progress: Fixed) -> (r: Option<Layer>)
    ensures
        r == spec_s6_background(w, h, time, progress),
{
    proof {
        reveal(spec_s6_background);
    }
    Some(
        plain(
            Source::Spotlight { x: Fixed::millionths(500_000), y: Fixed::millionths(300_000), intensity: Fixed::millionths(600_000) },
            Placement::At(0),
            0,
        ),
    )
}

/// The character, dead serious.
#[verifier::opaque]
pub open spec fn spec_s6_character(w: u32, h: u32, time: Fixed, progress: Fixed) -> Option<Layer> {
    Some(
        plain(
            Source::Character { expression: Expression::Serious, scale: Fixed::millionths(1_400_000) },
            Placement::Within { base: 0, span: span(w) },
            bottom_row(h, Character::sprite_height(Fixed::millionths(1_400_000)), 100),
        ),
    )
}

#[verifier::when_used_as_spec(spec_s6_character)]
pub fn s6_character(w: u32, h: u32, time: Fixed, progress: Fixed) -> (r: Option<Layer>)
    ensures
        r == spec_s6_character(w, h, time, progress),
{
    proof {
        reveal(spec_s6_character);
    }
    Some(
        plain(
            Source::Character { expression: Expression::Serious, scale: Fixed::millionths(1_400_000) },
            Placement::Within { base: 0, span: span(w) },
            bottom_row(h, Character::sprite_height(Fixed::millionths(1_400_000)), 100),
        ),
    )
}

/// The first line of the rule.
#[verifier::opaque]
pub open spec fn spec_s6_line_one(w: u32, h: u32, time: Fixed, progress: Fixed) -> Option<Layer> {
    Some(centred_text(w, "DRAW UNTIL", Fixed::from_int(80), TextStyle::red_bold(), None, 0, frac(h, 120000), Fixed::one()))
}

#[verifier::when_used_as_spec(spec_s6_line_one)]
pub fn s6_line_one(w: u32, h: u32, time: Fixed, progress: Fixed) -> (r: Option<Layer>)
    ensures
        r == spec_s6_line_one(w, h, time, progress),
{
    proof {
        reveal(spec_s6_line_one);
    }
    Some(centred_text(w, "DRAW UNTIL", Fixed::from_int(80), TextStyle::red_bold(), None, 0, frac(h, 120000), Fixed::one()))
}

/// The second line of the rule.
#[verifier::opaque]
pub open spec fn spec_s6_line_two(w: u32, h: u32, time: Fixed, progress: Fixed) -> Option<Layer> {
    Some(
        centred_text(w, "YOU CAN PLAY", Fixed::from_int(80), TextStyle::red_bold(), None, 0, frac(h, 200000), Fixed::one()),
    )
}

#[verifier::when_used_as_spec(spec_s6_line_two)]
pub fn s6_line_two(w: u32, h: u32, time: Fixed, progress: Fixed) -> (r: Option<Layer>)
    ensures
        r == spec_s6_line_two(w, h, time, progress),
{
    proof {
        reveal(spec_s6_line_two);
    }
    Some(
        centred_text(w, "YOU CAN PLAY", Fixed::from_int(80), TextStyle::red_bold(), None, 0, frac(h, 200000), Fixed::one()),
    )
}

/// The counter of cards drawn, which runs from 0 to 25 over the scene.
#[verifier::opaque]
pub open spec fn spec_s6_counter(w: u32, h: u32, time: Fixed, progress: Fixed) -> Option<Layer> {
    Some(
        centred_text(
            w,
            count_text(progress.times(Fixed::from_int(25)).extent()),
            Fixed::from_int(150),
            TextStyle::yellow_impact(),
            None,
            0,
            frac(h, 350000),
            Fixed::one(),
        ),
    )
}

#[verifier::when_used_as_spec(spec_s6_counter)]
pub fn s6_counter(w: u32, h: u32, time: Fixed, progress: Fixed) -> (r: Option<Layer>)
    ensures
        r == spec_s6_counter(w, h, time, progress),
{
    proof {
        reveal(spec_s6_counter);
    }
    Some(
        centred_text(
            w,
            count_text(progress.times(Fixed::from_int(25)).extent()),
            Fixed::from_int(150),
            TextStyle::yellow_impact(),
            None,
            0,
            frac(h, 350000),
            Fixed::one(),
        ),
    )
}

/// The card of index `i` of the pile, which grows to twenty cards over the
/// last 80% of the scene; each card lies three pixels lower than the one
/// before and somewhere within a hundred pixels of the middle.
#[verifier::opaque]
pub open spec fn spec_s6_pile(w: u32, h: u32, time: Fixed, progress: Fixed, i: u32) -> Option<Layer> {
    if Fixed::millionths(200_000).below(progress) && i < pile_count(progress) {
        Some(
            plain(
                Source::Card {
                    card: CardFactory::number(flying_color(i % 4), (i % 10) as u8),
                    width: 60,
                    height: 90,
                },
                Placement::At(
                    shift(
                        shift(span((w / 2) as u32), neg(30)),
                        Fixed::from_int(i as i64).times(Fixed::from_int(17)).sine().times(Fixed::from_int(100)).pixels(),
                    ),
                ),
                shift(frac(h, 550000), (3 * (i % 20)) as i32),
            ),
        )
    } else {
        None
    }
}

#[verifier::when_used_as_spec(spec_s6_pile)]
pub fn s6_pile(w: u32, h: u32, time: Fixed, progress: Fixed, i: u32) -> (r: Option<Layer>)
    ensures
        r == spec_s6_pile(w, h, time, progress, i),
{
    proof {
        reveal(spec_s6_pile);
    }
    if Fixed::millionths(200_000).below(progress) && i < pile_count(progress) {
        Some(
            plain(
                Source::Card {
                    card: CardFactory::number(flying_color(i % 4), (i % 10) as u8),
                    width: 60,
                    height: 90,
                },
                Placement::At(
                    shift(
                        shift(span((w / 2) as u32), neg(30)),
                        Fixed::from_int(i as i64).times(Fixed::from_int(17)).sine().times(Fixed::from_int(100)).pixels(),
                    ),
                ),
                shift(frac(h, 550000), (3 * (i % 20)) as i32),
            ),
        )
    } else {
        None
    }
}

/// The closing words, which fade in over the last fifth of the scene.
#[verifier::opaque]
pub open spec fn spec_s6_pain(w: u32, h: u32, time: Fixed, progress: Fixed) -> Option<Layer> {
    if Fixed::millionths(800_000).below(progress) {
        Some(
            centred_text(
                w,
                "Just pain.",
                Fixed::from_int(60),
                TextStyle::white_with_black_outline(),
                None,
                0,
                frac(h, 850000),
                progress.minus(Fixed::millionths(800_000)).over(Fixed::millionths(200_000)),
            ),
        )
    } else {
        None
    }
}

#[verifier::when_used_as_spec(spec_s6_pain)]
pub fn s6_pain(w: u32, h: u32, time: Fixed, progress: Fixed) -> (r: Option<Layer>)
    ensures
        r == spec_s6_pain(w, h, time, progress),
{
    proof {
        reveal(spec_s6_pain);
    }
    if Fixed::millionths(800_000).below(progress) {
        Some(
            centred_text(
                w,
                "Just pain.",
                Fixed::from_int(60),
                TextStyle::white_with_black_outline(),
                None,
                0,
                frac(h, 850000),
                progress.minus(Fixed::millionths(800_000)).over(Fixed::millionths(200_000)),
            ),
        )
    } else {
        None
    }
}

/// The dark backdrop with its drifting lights.
#[verifier::opaque]
pub open spec fn spec_s7_background(w: u32, h: u32, time: Fixed, progress: Fixed) -> Option<Layer> {
    Some(plain(Source::DramaticDark { time }, Placement::At(0), 0))
}

#[verifier::when_used_as_spec(spec_s7_background)]
pub fn s7_background(w: u32, h: u32, time: Fixed, progress: Fixed) -> (r: Option<Layer>)
    ensures
        r == spec_s7_background(w, h, time, progress),
{
    proof {
        reveal(spec_s7_background);
    }
    Some(plain(Source::DramaticDark { time }, Placement::At(0), 0))
}

/// Twelve sparkles.
#[verifier::opaque]
pub open spec fn spec_s7_sparkles(w: u32, h: u32, time: Fixed, progress: Fixed) -> Option<Layer> {
    Some(plain(Source::Sparkles { count: 12, time, seed: 666 }, Placement::At(0), 0))
}

#[verifier::when_used_as_spec(spec_s7_sparkles)]
pub fn s7_sparkles(w: u32, h: u32, time: Fixed, progress: Fixed) -> (r: Option<Layer>)
    ensures
        r == spec_s7_sparkles(w, h, time, progress),
{
    proof {
        reveal(spec_s7_sparkles);
    }
    Some(plain(Source::Sparkles { count: 12, time, seed: 666 }, Placement::At(0), 0))
}

/// The character, which shrinks in the middle while serious and then moves to
/// the right edge with a mischievous smile.
#[verifier::opaque]
pub open spec fn spec_s7_character(w: u32, h: u32, time: Fixed, progress: Fixed) -> Option<Layer> {
    Some(
        plain(
            Source::Character {
                expression: if progress.below(Fixed::millionths(500_000)) {
                    Expression::Serious
                } else {
                    Expression::Mischievous
                },
                scale: outro_scale(progress),
            },
            if progress.below(Fixed::millionths(500_000)) {
                Placement::Within { base: 0, span: span(w) }
            } else {
                Placement::At(
                    Slide::along(
                        (Placement::Within { base: 0, span: span(w) }).resolve(
                            Character::sprite_width(outro_scale(progress)),
                        ),
                        right_edge(w, Character::sprite_width(outro_scale(progress)), 50),
                        Easing::ease_in_out(progress.minus(Fixed::millionths(500_000)).times(Fixed::from_int(2))),
                    ),
                )
            },
            bottom_row(h, Character::sprite_height(outro_scale(progress)), 0),
        ),
    )
}

#[verifier::when_used_as_spec(spec_s7_character)]
pub fn s7_character(w: u32, h: u32, time: Fixed, progress: Fixed) -> (r: Option<Layer>)
    ensures
        r == spec_s7_character(w, h, time, progress),
{
    proof {
        reveal(spec_s7_character);
    }
    Some(
        plain(
            Source::Character {
                expression: if progress.below(Fixed::millionths(500_000)) {
                    Expression::Serious
                } else {
                    Expression::Mischievous
                },
                scale: outro_scale(progress),
            },
            if progress.below(Fixed::millionths(500_000)) {
                Placement::Within { base: 0, span: span(w) }
            } else {
                Placement::At(
                    Slide::along(
                        (Placement::Within { base: 0, span: span(w) }).resolve(
                            Character::sprite_width(outro_scale(progress)),
                        ),
                        right_edge(w, Character::sprite_width(outro_scale(progress)), 50),
                        Easing::ease_in_out(progress.minus(Fixed::millionths(500_000)).times(Fixed::from_int(2))),
                    ),
                )
            },
            bottom_row(h, Character::sprite_height(outro_scale(progress)), 0),
        ),
    )
}

/// The closing statement of index `i`, which fades in and out during its 15%
/// of the first half of the scene.
#[verifier::opaque]
pub open spec fn spec_s7_statement(w: u32, h: u32, time: Fixed, progress: Fixed, i: u32) -> Option<Layer> {
    if progress.below(Fixed::millionths(500_000)) && statement_start(i).below(progress) && progress.below(
        statement_start(i).plus(Fixed::millionths(150_000)),
    ) {
        Some(
            centred_text(
                w,
                statement_text(i),
                Fixed::from_int(70),
                TextStyle::red_bold(),
                None,
                0,
                frac(h, 300000),
                there_and_back(progress.minus(statement_start(i)).over(Fixed::millionths(150_000))),
            ),
        )
    } else {
        None
    }
}

#[verifier::when_used_as_spec(spec_s7_statement)]
pub fn s7_statement(w: u32, h: u32, time: Fixed, progress: Fixed, i: u32) -> (r: Option<Layer>)
    ensures
        r == spec_s7_statement(w, h, time, progress, i),
{
    proof {
        reveal(spec_s7_statement);
    }
    if progress.below(Fixed::millionths(500_000)) && statement_start(i).below(progress) && progress.below(
        statement_start(i).plus(Fixed::millionths(150_000)),
    ) {
        Some(
            centred_text(
                w,
                statement_text(i),
                Fixed::from_int(70),
                TextStyle::red_bold(),
                None,
                0,
                frac(h, 300000),
                there_and_back(progress.minus(statement_start(i)).over(Fixed::millionths(150_000))),
            ),
        )
    } else {
        None
    }
}

/// The closing question, which pops in with a halo from 60% of the scene on.
#[verifier::opaque]
pub open spec fn spec_s7_question(w: u32, h: u32, time: Fixed, progress: Fixed) -> Option<Layer> {
    if Fixed::millionths(600_000).below(progress) {
        pop_text(
            w,
            "who wants to play?",
            Fixed::from_int(80),
            PopIn::get_scale(progress.minus(Fixed::millionths(600_000)).over(Fixed::millionths(400_000)), Fixed::millionths(800_000)),
            TextStyle::yellow_impact(),
            Some(Halo { color: Color::rgba(255, 200, 50, 150), radius: 12, intensity: Fixed::millionths(700_000) }),
            0,
            frac(h, 230000),
            Fixed::one(),
        )
    } else {
        None
    }
}

#[verifier::when_used_as_spec(spec_s7_question)]
pub fn s7_question(w: u32, h: u32, time: Fixed, progress: Fixed) -> (r: Option<Layer>)
    ensures
        r == spec_s7_question(w, h, time, progress),
{
    proof {
        reveal(spec_s7_question);
    }
    if Fixed::millionths(600_000).below(progress) {
        pop_text(
            w,
            "who wants to play?",
            Fixed::from_int(80),
            PopIn::get_scale(progress.minus(Fixed::millionths(600_000)).over(Fixed::millionths(400_000)), Fixed::millionths(800_000)),
            TextStyle::yellow_impact(),
            Some(Halo { color: Color::rgba(255, 200, 50, 150), radius: 12, intensity: Fixed::millionths(700_000) }),
            0,
            frac(h, 230000),
            Fixed::one(),
        )
    } else {
        None
    }
}

/// The grin under the question, from 80% of the scene on.
#[verifier::opaque]
pub open spec fn spec_s7_grin(w: u32, h: u32, time: Fixed, progress: Fixed) -> Option<Layer> {
    if Fixed::millionths(600_000).below(progress) && Fixed::millionths(100_000).below(
        PopIn::get_scale(progress.minus(Fixed::millionths(600_000)).over(Fixed::millionths(400_000)), Fixed::millionths(800_000)),
    ) && Fixed::millionths(500_000).below(progress.minus(Fixed::millionths(600_000)).over(Fixed::millionths(400_000))) {
        Some(
            centred_text(
                w,
                ">:)",
                Fixed::from_int(140),
                grin_style(),
                Some(Halo { color: Color::rgba(255, 80, 50, 180), radius: 18, intensity: Fixed::one() }),
                0,
                frac(h, 380000),
                Fixed::one(),
            ),
        )
    } else {
        None
    }
}

#[verifier::when_used_as_spec(spec_s7_grin)]
pub fn s7_grin(w: u32, h: u32, time: Fixed, progress: Fixed) -> (r: Option<Layer>)
    ensures
        r == spec_s7_grin(w, h, time, progress),
{
    proof {
        reveal(spec_s7_grin);
    }
    if Fixed::millionths(600_000).below(progress) && Fixed::millionths(100_000).below(
        PopIn::get_scale(progress.minus(Fixed::millionths(600_000)).over(Fixed::millionths(400_000)), Fixed::millionths(800_000)),
    ) && Fixed::millionths(500_000).below(progress.minus(Fixed::millionths(600_000)).over(Fixed::millionths(400_000))) {
        Some(
            centred_text(
                w,
                ">:)",
                Fixed::from_int(140),
                grin_style(),
                Some(Halo { color: Color::rgba(255, 80, 50, 180), radius: 18, intensity: Fixed::one() }),
                0,
                frac(h, 380000),
                Fixed::one(),
            ),
        )
    } else {
        None
    }
}

/// The fade to black over the last tenth of the scene.
#[verifier::opaque]
pub open spec fn spec_s7_fade(w: u32, h: u32, time: Fixed, progress: Fixed) -> Option<Layer> {
    if Fixed::millionths(900_000).below(progress) {
        Some(
            plain(
                Source::FadeToBlack { progress: progress.minus(Fixed::millionths(900_000)).over(Fixed::millionths(100_000)) },
                Placement::At(0),
                0,
            ),
        )
    } else {
        None
    }
}

#[verifier::when_used_as_spec(spec_s7_fade)]
pub fn s7_fade(w: u32, h: u32, time: Fixed, progress: Fixed) -> (r: Option<Layer>)
    ensures
        r == spec_s7_fade(w, h, time, progress),
{
    proof {
        reveal(spec_s7_fade);
    }
    if Fixed::millionths(900_000).below(progress) {
        Some(
            plain(
                Source::FadeToBlack { progress: progress.minus(Fixed::millionths(900_000)).over(Fixed::millionths(100_000)) },
                Placement::At(0),
                0,
            ),
        )
    } else {
        None
    }
}

/// The hook: the layers of the scene at `time`, back to front, on a frame
/// of `w` × `h`; `progress` says how far the scene has run. A layer that is
/// not on screen at that instant is left empty.
pub open spec fn spec_scene_1(w: u32, h: u32, time: Fixed, progress: Fixed) -> Seq<Option<Layer>> {
    seq![
        spec_s1_background(w, h, time, progress),
        spec_s1_sparkles(w, h, time, progress),
        spec_s1_character(w, h, time, progress),
        spec_s1_title(w, h, time, progress),
        spec_s1_wave(w, h, time, progress),
        spec_s1_flash(w, h, time, progress),
        spec_s1_fade(w, h, time, progress),
    ]
}
#[verifier::rlimit(50)]

pub fn scene_1(w: u32, h: u32, time: Fixed, progress: Fixed) -> (layers: Vec<Option<Layer>>)
    ensures
        layers@ == spec_scene_1(w, h, time, progress),
        layers@.len() == 7,
{
    let mut layers: Vec<Option<Layer>> = Vec::new();
    layers.push(s1_background(w, h, time, progress));
    layers.push(s1_sparkles(w, h, time, progress));
    layers.push(s1_character(w, h, time, progress));
    layers.push(s1_title(w, h, time, progress));
    layers.push(s1_wave(w, h, time, progress));
    layers.push(s1_flash(w, h, time, progress));
    layers.push(s1_fade(w, h, time, progress));
    assert(layers@ =~= spec_scene_1(w, h, time, progress));
    layers
}

/// The basics: the layers of the scene at `time`, back to front, on a frame
/// of `w` × `h`; `progress` says how far the scene has run. A layer that is
/// not on screen at that instant is left empty.
pub open spec fn spec_scene_2(w: u32, h: u32, time: Fixed, progress: Fixed) -> Seq<Option<Layer>> {
    seq![
        spec_s2_background(w, h, time, progress),
        spec_s2_character(w, h, time, progress),
        spec_s2_flying(w, h, time, progress),
        spec_s2_fact(w, h, time, progress, 0),
        spec_s2_fact(w, h, time, progress, 1),
        spec_s2_fact(w, h, time, progress, 2),
        spec_s2_skull(w, h, time, progress),
    ]
}
#[verifier::rlimit(50)]

pub fn scene_2(w: u32, h: u32, time: Fixed, progress: Fixed) -> (layers: Vec<Option<Layer>>)
    ensures
        layers@ == spec_scene_2(w, h, time, progress),
        layers@.len() == 7,
{
    let mut layers: Vec<Option<Layer>> = Vec::new();
    layers.push(s2_background(w, h, time, progress));
    layers.push(s2_character(w, h, time, progress));
    layers.push(s2_flying(w, h, time, progress));
    layers.push(s2_fact(w, h, time, progress, 0));
    layers.push(s2_fact(w, h, time, progress, 1));
    layers.push(s2_fact(w, h, time, progress, 2));
    layers.push(s2_skull(w, h, time, progress));
    assert(layers@ =~= spec_scene_2(w, h, time, progress));
    layers
}

/// The draw cards: the layers of the scene at `time`, back to front, on a frame
/// of `w` × `h`; `progress` says how far the scene has run. A layer that is
/// not on screen at that instant is left empty.
pub open spec fn spec_scene_3(w: u32, h: u32, time: Fixed, progress: Fixed) -> Seq<Option<Layer>> {
    seq![
        spec_s3_background(w, h, time, progress),
        spec_s3_character(w, h, time, progress),
        spec_s3_card(w, h, time, progress, 0),
        spec_s3_label(w, h, time, progress, 0),
        spec_s3_card(w, h, time, progress, 1),
        spec_s3_label(w, h, time, progress, 1),
        spec_s3_card(w, h, time, progress, 2),
        spec_s3_label(w, h, time, progress, 2),
        spec_s3_equation(w, h, time, progress),
        spec_s3_stack(w, h, time, progress),
    ]
}
#[verifier::rlimit(50)]

pub fn scene_3(w: u32, h: u32, time: Fixed, progress: Fixed) -> (layers: Vec<Option<Layer>>)
    ensures
        layers@ == spec_scene_3(w, h, time, progress),
        layers@.len() == 10,
{
    let mut layers: Vec<Option<Layer>> = Vec::new();
    layers.push(s3_background(w, h, time, progress));
    layers.push(s3_character(w, h, time, progress));
    layers.push(s3_card(w, h, time, progress, 0));
    layers.push(s3_label(w, h, time, progress, 0));
    layers.push(s3_card(w, h, time, progress, 1));
    layers.push(s3_label(w, h, time, progress, 1));
    layers.push(s3_card(w, h, time, progress, 2));
    layers.push(s3_label(w, h, time, progress, 2));
    layers.push(s3_equation(w, h, time, progress));
    layers.push(s3_stack(w, h, time, progress));
    assert(layers@ =~= spec_scene_3(w, h, time, progress));
    layers
}

/// The plot twist: the layers of the scene at `time`, back to front, on a frame
/// of `w` × `h`; `progress` says how far the scene has run. A layer that is
/// not on screen at that instant is left empty.
pub open spec fn spec_scene_4(w: u32, h: u32, time: Fixed, progress: Fixed) -> Seq<Option<Layer>> {
    seq![
        spec_s4_background(w, h, time, progress),
        spec_s4_sparkles(w, h, time, progress),
        spec_s4_character(w, h, time, progress),
        spec_s4_twist(w, h, time, progress),
        spec_s4_card(w, h, time, progress),
        spec_s4_remark(w, h, time, progress),
        spec_s4_header(w, h, time, progress),
        spec_s4_wild(w, h, time, progress, 0),
        spec_s4_wild_label(w, h, time, progress, 0),
        spec_s4_wild(w, h, time, progress, 1),
        spec_s4_wild_label(w, h, time, progress, 1),
        spec_s4_wild(w, h, time, progress, 2),
        spec_s4_wild_label(w, h, time, progress, 2),
        spec_s4_wild(w, h, time, progress, 3),
        spec_s4_wild_label(w, h, time, progress, 3),
    ]
}
#[verifier::rlimit(50)]

pub fn scene_4(w: u32, h: u32, time: Fixed, progress: Fixed) -> (layers: Vec<Option<Layer>>)
    ensures
        layers@ == spec_scene_4(w, h, time, progress),
        layers@.len() == 15,
{
    let mut layers: Vec<Option<Layer>> = Vec::new();
    layers.push(s4_background(w, h, time, progress));
    layers.push(s4_sparkles(w, h, time, progress));
    layers.push(s4_character(w, h, time, progress));
    layers.push(s4_twist(w, h, time, progress));
    layers.push(s4_card(w, h, time, progress));
    layers.push(s4_remark(w, h, time, progress));
    layers.push(s4_header(w, h, time, progress));
    layers.push(s4_wild(w, h, time, progress, 0));
    layers.push(s4_wild_label(w, h, time, progress, 0));
    layers.push(s4_wild(w, h, time, progress, 1));
    layers.push(s4_wild_label(w, h, time, progress, 1));
    layers.push(s4_wild(w, h, time, progress, 2));
    layers.push(s4_wild_label(w, h, time, progress, 2));
    layers.push(s4_wild(w, h, time, progress, 3));
    layers.push(s4_wild_label(w, h, time, progress, 3));
    assert(layers@ =~= spec_scene_4(w, h, time, progress));
    layers
}

/// The chaos cards: the layers of the scene at `time`, back to front, on a frame
/// of `w` × `h`; `progress` says how far the scene has run. A layer that is
/// not on screen at that instant is left empty.
pub open spec fn spec_scene_5(w: u32, h: u32, time: Fixed, progress: Fixed) -> Seq<Option<Layer>> {
    seq![
        spec_s5_background(w, h, time, progress),
        spec_s5_sparkles(w, h, time, progress),
        spec_s5_wave(w, h, time, progress),
        spec_s5_character(w, h, time, progress),
        spec_s5_card(w, h, time, progress, 0),
        spec_s5_rule(w, h, time, progress, 0),
        spec_s5_card(w, h, time, progress, 1),
        spec_s5_rule(w, h, time, progress, 1),
        spec_s5_card(w, h, time, progress, 2),
        spec_s5_rule(w, h, time, progress, 2),
        spec_s5_card(w, h, time, progress, 3),
        spec_s5_rule(w, h, time, progress, 3),
        spec_s5_card(w, h, time, progress, 4),
        spec_s5_rule(w, h, time, progress, 4),
    ]
}
#[verifier::rlimit(50)]

pub fn scene_5(w: u32, h: u32, time: Fixed, progress: Fixed) -> (layers: Vec<Option<Layer>>)
    ensures
        layers@ == spec_scene_5(w, h, time, progress),
        layers@.len() == 14,
{
    let mut layers: Vec<Option<Layer>> = Vec::new();
    layers.push(s5_background(w, h, time, progress));
    layers.push(s5_sparkles(w, h, time, progress));
    layers.push(s5_wave(w, h, time, progress));
    layers.push(s5_character(w, h, time, progress));
    layers.push(s5_card(w, h, time, progress, 0));
    layers.push(s5_rule(w, h, time, progress, 0));
    layers.push(s5_card(w, h, time, progress, 1));
    layers.push(s5_rule(w, h, time, progress, 1));
    layers.push(s5_card(w, h, time, progress, 2));
    layers.push(s5_rule(w, h, time, progress, 2));
    layers.push(s5_card(w, h, time, progress, 3));
    layers.push(s5_rule(w, h, time, progress, 3));
    layers.push(s5_card(w, h, time, progress, 4));
    layers.push(s5_rule(w, h, time, progress, 4));
    assert(layers@ =~= spec_scene_5(w, h, time, progress));
    layers
}

/// The golden rule: the layers of the scene at `time`, back to front, on a frame
/// of `w` × `h`; `progress` says how far the scene has run. A layer that is
/// not on screen at that instant is left empty.
pub open spec fn spec_scene_6(w: u32, h: u32, time: Fixed, progress: Fixed) -> Seq<Option<Layer>> {
    seq![
        spec_s6_background(w, h, time, progress),
        spec_s6_character(w, h, time, progress),
        spec_s6_line_one(w, h, time, progress),
        spec_s6_line_two(w, h, time, progress),
        spec_s6_counter(w, h, time, progress),
        spec_s6_pile(w, h, time, progress, 0),
        spec_s6_pile(w, h, time, progress, 1),
        spec_s6_pile(w, h, time, progress, 2),
        spec_s6_pile(w, h, time, progress, 3),
        spec_s6_pile(w, h, time, progress, 4),
        spec_s6_pile(w, h, time, progress, 5),
        spec_s6_pile(w, h, time, progress, 6),
        spec_s6_pile(w, h, time, progress, 7),
        spec_s6_pile(w, h, time, progress, 8),
        spec_s6_pile(w, h, time, progress, 9),
        spec_s6_pile(w, h, time, progress, 10),
        spec_s6_pile(w, h, time, progress, 11),
        spec_s6_pile(w, h, time, progress, 12),
        spec_s6_pile(w, h, time, progress, 13),
        spec_s6_pile(w, h, time, progress, 14),
        spec_s6_pile(w, h, time, progress, 15),
        spec_s6_pile(w, h, time, progress, 16),
        spec_s6_pile(w, h, time, progress, 17),
        spec_s6_pile(w, h, time, progress, 18),
        spec_s6_pile(w, h, time, progress, 19),
        spec_s6_pain(w, h, time, progress),
    ]
}
#[verifier::rlimit(50)]

pub fn scene_6(w: u32, h: u32, time: Fixed, progress: Fixed) -> (layers: Vec<Option<Layer>>)
    ensures
        layers@ == spec_scene_6(w, h, time, progress),
        layers@.len() == 26,
{
    let mut layers: Vec<Option<Layer>> = Vec::new();
    layers.push(s6_background(w, h, time, progress));
    layers.push(s6_character(w, h, time, progress));
    layers.push(s6_line_one(w, h, time, progress));
    layers.push(s6_line_two(w, h, time, progress));
    layers.push(s6_counter(w, h, time, progress));
    layers.push(s6_pile(w, h, time, progress, 0));
    layers.push(s6_pile(w, h, time, progress, 1));
    layers.push(s6_pile(w, h, time, progress, 2));
    layers.push(s6_pile(w, h, time, progress, 3));
    layers.push(s6_pile(w, h, time, progress, 4));
    layers.push(s6_pile(w, h, time, progress, 5));
    layers.push(s6_pile(w, h, time, progress, 6));
    layers.push(s6_pile(w, h, time, progress, 7));
    layers.push(s6_pile(w, h, time, progress, 8));
    layers.push(s6_pile(w, h, time, progress, 9));
    layers.push(s6_pile(w, h, time, progress, 10));
    layers.push(s6_pile(w, h, time, progress, 11));
    layers.push(s6_pile(w, h, time, progress, 12));
    layers.push(s6_pile(w, h, time, progress, 13));
    layers.push(s6_pile(w, h, time, progress, 14));
    layers.push(s6_pile(w, h, time, progress, 15));
    layers.push(s6_pile(w, h, time, progress, 16));
    layers.push(s6_pile(w, h, time, progress, 17));
    layers.push(s6_pile(w, h, time, progress, 18));
    layers.push(s6_pile(w, h, time, progress, 19));
    layers.push(s6_pain(w, h, time, progress));
    assert(layers@ =~= spec_scene_6(w, h, time, progress));
    layers
}

/// The outro: the layers of the scene at `time`, back to front, on a frame
/// of `w` × `h`; `progress` says how far the scene has run. A layer that is
/// not on screen at that instant is left empty.
pub open spec fn spec_scene_7(w: u32, h: u32, time: Fixed, progress: Fixed) -> Seq<Option<Layer>> {
    seq![
        spec_s7_background(w, h, time, progress),
        spec_s7_sparkles(w, h, time, progress),
        spec_s7_character(w, h, time, progress),
        spec_s7_statement(w, h, time, progress, 0),
        spec_s7_statement(w, h, time, progress, 1),
        spec_s7_statement(w, h, time, progress, 2),
        spec_s7_question(w, h, time, progress),
        spec_s7_grin(w, h, time, progress),
        spec_s7_fade(w, h, time, progress),
    ]
}
#[verifier::rlimit(50)]

pub fn scene_7(w: u32, h: u32, time: Fixed, progress: Fixed) -> (layers: Vec<Option<Layer>>)
    ensures
        layers@ == spec_scene_7(w, h, time, progress),
        layers@.len() == 9,
{
    let mut layers: Vec<Option<Layer>> = Vec::new();
    layers.push(s7_background(w, h, time, progress));
    layers.push(s7_sparkles(w, h, time, progress));
    layers.push(s7_character(w, h, time, progress));
    layers.push(s7_statement(w, h, time, progress, 0));
    layers.push(s7_statement(w, h, time, progress, 1));
    layers.push(s7_statement(w, h, time, progress, 2));
    layers.push(s7_question(w, h, time, progress));
    layers.push(s7_grin(w, h, time, progress));
    layers.push(s7_fade(w, h, time, progress));
    assert(layers@ =~= spec_scene_7(w, h, time, progress));
    layers
}


/// The numbers that fix a video: the extent of its frames, its frame rate
/// and its length in seconds.
#[derive(Debug, Clone, Copy, PartialEq, Eq, Structural)]
pub struct VideoConfig {
    pub width: u32,
    pub height: u32,
    pub frame_rate: u32,
    pub total_duration: Fixed,
}

impl VideoConfig {
    /// Whether the four numbers are all positive.
    pub open spec fn spec_valid(&self) -> bool {
        self.width > 0 && self.height > 0 && self.frame_rate > 0 && self.total_duration.raw > 0
    }

    #[verifier::when_used_as_spec(spec_valid)]
    pub fn valid(&self) -> (r: bool)
        ensures
            r == self.spec_valid(),
    {
        self.width > 0 && self.height > 0 && self.frame_rate > 0 && self.total_duration.raw > 0
    }

    /// The configuration of the four numbers given, or nothing where one of
    /// them is not positive.
    pub fn new(width: u32, height: u32, frame_rate: u32, total_duration: Fixed) -> (c: Option<VideoConfig>)
        ensures
            c == if (VideoConfig { width, height, frame_rate, total_duration }).spec_valid() {
                Some(VideoConfig { width, height, frame_rate, total_duration })
            } else {
                None
            },
    {
        let config = VideoConfig { width, height, frame_rate, total_duration };
        if config.valid() {
            Some(config)
        } else {
            None
        }
    }

    /// The video of 1080 by 1920 pixels at 30 frames a second that runs for 75 seconds.
    pub open spec fn spec_standard() -> VideoConfig {
        VideoConfig { width: 1080, height: 1920, frame_rate: 30, total_duration: Fixed::from_int(75) }
    }

    #[verifier::when_used_as_spec(spec_standard)]
    pub fn standard() -> (r: VideoConfig)
        ensures
            r == VideoConfig::spec_standard(),
    {
        VideoConfig { width: 1080, height: 1920, frame_rate: 30, total_duration: Fixed::from_int(75) }
    }
    /// The instant of the frame of the index given, in seconds.
    pub open spec fn spec_frame_time(&self, frame: u32) -> Fixed {
        Fixed::ratio(frame as i64, self.frame_rate as i64)
    }

    #[verifier::when_used_as_spec(spec_frame_time)]
    pub fn frame_time(&self, frame: u32) -> (r: Fixed)
        ensures
            r == self.spec_frame_time(frame),
    {
        Fixed::ratio(frame as i64, self.frame_rate as i64)
    }
    /// Number of frames of the whole video.
    pub open spec fn spec_total_frames(&self) -> u32 {
        self.total_duration.times(Fixed::from_int(self.frame_rate as i64)).extent()
    }

    #[verifier::when_used_as_spec(spec_total_frames)]
    pub fn total_frames(&self) -> (r: u32)
        ensures
            r == self.spec_total_frames(),
    {
        self.total_duration.times(Fixed::from_int(self.frame_rate as i64)).extent()
    }
}

/// The seven windows of the video.
pub open spec fn spec_timeline() -> Seq<SceneTiming> {
    seq![
        SceneTiming::new(Fixed::from_int(0), Fixed::from_int(3)),
        SceneTiming::new(Fixed::from_int(3), Fixed::from_int(15)),
        SceneTiming::new(Fixed::from_int(15), Fixed::from_int(30)),
        SceneTiming::new(Fixed::from_int(30), Fixed::from_int(45)),
        SceneTiming::new(Fixed::from_int(45), Fixed::from_int(60)),
        SceneTiming::new(Fixed::from_int(60), Fixed::from_int(70)),
        SceneTiming::new(Fixed::from_int(70), Fixed::from_int(75)),
    ]
}

/// The windows of the video follow one another without gap or overlap, from
/// the start of the video to its end after 75 seconds.
pub proof fn lemma_timeline_partitions()
    ensures
        spec_timeline().len() == 7,
        spec_timeline()[0].start == Fixed::zero(),
        spec_timeline()[6].end == VideoConfig::standard().total_duration,
        forall|i: int| 0 <= i < 6 ==> (#[trigger] spec_timeline()[i]).end == spec_timeline()[i + 1].start,
        forall|i: int| 0 <= i < 7 ==> (#[trigger] spec_timeline()[i]).start.raw < spec_timeline()[i].end.raw,
{
    assert(spec_timeline()[0].end == spec_timeline()[1].start);
    assert(spec_timeline()[1].end == spec_timeline()[2].start);
    assert(spec_timeline()[2].end == spec_timeline()[3].start);
    assert(spec_timeline()[3].end == spec_timeline()[4].start);
    assert(spec_timeline()[4].end == spec_timeline()[5].start);
    assert(spec_timeline()[5].end == spec_timeline()[6].start);
}

/// Progress is nothing up to the start of a window and all of it from its
/// end on.
pub proof fn lemma_progress_ends(s: SceneTiming, t: Fixed)
    requires
        s.start.raw < s.end.raw,
    ensures
        t.raw <= s.start.raw ==> s.progress(t) == Progress::zero(),
        t.raw >= s.end.raw ==> s.progress(t) == Progress::one(),
        s.progress(t).wf(),
{
}

/// Inside a window, progress is the time that has passed over the length of
/// the window, exactly; it stays below all of it, and its value to six
/// decimals is that quotient rounded down.
pub proof fn lemma_progress_quotient(s: SceneTiming, t: Fixed)
    requires
        s.start.raw <= t.raw < s.end.raw,
    ensures
        s.progress(t).passed * (s.end.raw - s.start.raw) == (t.raw - s.start.raw) * s.progress(
            t,
        ).length,
        s.progress(t).spec_below(Progress::one()),
        Progress::zero().spec_at_most(s.progress(t)),
        s.progress(t).fixed().raw == ((t.raw - s.start.raw) * SCALE) / (s.end.raw - s.start.raw),
        0 <= s.progress(t).fixed().raw < SCALE,
{
    let len = s.end.raw - s.start.raw;
    let d = t.raw - s.start.raw;
    assert(0 * len == 0) by (nonlinear_arith);
    assert(0 <= d * SCALE < len * SCALE) by (nonlinear_arith)
        requires
            0 <= d < len,
            SCALE == 1_000_000,
    ;
    assert(0 <= (d * SCALE) / len < SCALE) by (nonlinear_arith)
        requires
            0 <= d * SCALE < len * SCALE,
            0 < len,
    ;
    if d == 0 {
        assert((0 * SCALE) / 1 == 0) by (nonlinear_arith);
        assert((0 * SCALE) / len == 0) by (nonlinear_arith)
            requires
                0 < len,
        ;
    }
}

/// Inside a window, progress grows strictly with time: of two instants from
/// the start to the end of a window, the later has the greater progress.
pub proof fn lemma_progress_strict(s: SceneTiming, t1: Fixed, t2: Fixed)
    requires
        s.start.raw <= t1.raw < t2.raw <= s.end.raw,
    ensures
        s.progress(t1).spec_below(s.progress(t2)),
{
    let len = s.end.raw - s.start.raw;
    let d1 = t1.raw - s.start.raw;
    let d2 = t2.raw - s.start.raw;
    let p1 = s.progress(t1);
    let p2 = s.progress(t2);
    if t1.raw == s.start.raw {
        assert(p1 == Progress::zero());
        assert(p2.passed > 0 && p2.length > 0);
        assert(0 * p2.length == 0) by (nonlinear_arith);
        assert(p2.passed * 1 == p2.passed) by (nonlinear_arith);
    } else if t2.raw == s.end.raw {
        assert(p2 == Progress::one());
        assert(p1.passed == d1 && p1.length == len);
        assert(p1.passed * 1 == p1.passed) by (nonlinear_arith);
        assert(1 * p1.length == p1.length) by (nonlinear_arith);
    } else {
        assert(p1.passed == d1 && p1.length == len);
        assert(p2.passed == d2 && p2.length == len);
        assert(d1 * len < d2 * len) by (nonlinear_arith)
            requires
                0 <= d1 < d2,
                0 < len,
        ;
    }
}

/// Progress never decreases as time goes on, whatever the window.
pub proof fn lemma_progress_monotone(s: SceneTiming, t1: Fixed, t2: Fixed)
    requires
        t1.raw <= t2.raw,
    ensures
        s.progress(t1).spec_at_most(s.progress(t2)),
{
    let p1 = s.progress(t1);
    let p2 = s.progress(t2);
    assert(p1.wf() && p2.wf());
    if p1 == Progress::zero() {
        assert(0 * p2.length == 0) by (nonlinear_arith);
        assert(0 <= p2.passed * 1) by (nonlinear_arith)
            requires
                0 <= p2.passed,
        ;
    } else if p2 == Progress::one() {
        assert(p1.passed * 1 == p1.passed) by (nonlinear_arith);
        assert(1 * p1.length == p1.length) by (nonlinear_arith);
    } else {
        let len = s.end.raw - s.start.raw;
        let d1 = t1.raw - s.start.raw;
        let d2 = t2.raw - s.start.raw;
        assert(s.start.raw < t1.raw <= t2.raw < s.end.raw);
        assert(p1.passed == d1 && p1.length == len);
        assert(p2.passed == d2 && p2.length == len);
        assert(d1 * len <= d2 * len) by (nonlinear_arith)
            requires
                0 <= d1 <= d2,
                0 < len,
        ;
    }
}

/// The value of progress to six decimals keeps the order of the fractions:
/// it never decreases where the fraction does not.
pub proof fn lemma_fixed_keeps_order(a: Progress, b: Progress)
    requires
        a.wf(),
        b.wf(),
        a.spec_at_most(b),
    ensures
        0 <= a.fixed().raw <= b.fixed().raw <= SCALE,
{
    let x = a.passed * SCALE;
    let y = b.passed * SCALE;
    let m = a.length as int;
    let n = b.length as int;
    assert(0 <= x <= m * SCALE && 0 <= y <= n * SCALE) by (nonlinear_arith)
        requires
            x == a.passed * SCALE,
            y == b.passed * SCALE,
            0 <= a.passed <= m,
            0 <= b.passed <= n,
            SCALE == 1_000_000,
    ;
    assert(0 <= x / m <= SCALE) by (nonlinear_arith)
        requires
            0 <= x <= m * SCALE,
            0 < m,
    ;
    assert(0 <= y / n <= SCALE) by (nonlinear_arith)
        requires
            0 <= y <= n * SCALE,
            0 < n,
    ;
    assert(x * n <= y * m) by (nonlinear_arith)
        requires
            x == a.passed * SCALE,
            y == b.passed * SCALE,
            a.passed * n <= b.passed * m,
            SCALE == 1_000_000,
    ;
    assert(x / m <= y / n) by (nonlinear_arith)
        requires
            x * n <= y * m,
            0 <= x,
            0 <= y,
            0 < m,
            0 < n,
    {
        let q = x / m;
        assert(q * m <= x);
        assert(q * m * n <= y * m);
        assert(q * n <= y);
    }
}

/// The two lines of text of a card as requests: the symbol in the middle
/// and the index in the corners, each with its size.
pub open spec fn spec_card_requests(card: Card, width: u32, height: u32) -> Seq<(Seq<char>, Fixed)> {
    seq![
        (card.card_type.spec_display_text(), Card::spec_symbol_size(width, height)),
        (card.card_type.spec_corner_text(), Card::spec_corner_size(width, height)),
    ]
}

/// The requests of the first `n` cards of a plan of flying cards.
pub open spec fn spec_flying_requests(plan: Seq<FlyingCard>, n: nat) -> Seq<(Seq<char>, Fixed)>
    decreases n,
{
    if n == 0 || n > plan.len() {
        Seq::<(Seq<char>, Fixed)>::empty()
    } else {
        spec_flying_requests(plan, (n - 1) as nat) + spec_card_requests(
            plan[n - 1].card,
            plan[n - 1].width,
            plan[n - 1].height,
        )
    }
}

/// The lines of text that a source takes, in the order in which it takes
/// their glyph runs.
pub open spec fn spec_source_requests(source: Source) -> Seq<(Seq<char>, Fixed)> {
    match source {
        Source::Text { text, size, style, halo } => seq![(text@, size)],
        Source::Card { card, width, height } => spec_card_requests(card, width, height),
        Source::FlyingCards { width, height, cards: count, seed } => spec_flying_requests(
            spec_deal_many(seeded_state(seed), width, height, count as nat).0,
            count as nat,
        ),
        Source::CardStack { first, second, width, height, offset } => spec_card_requests(
            first,
            width,
            height,
        ) + spec_card_requests(second, width, height),
        _ => Seq::<(Seq<char>, Fixed)>::empty(),
    }
}

/// The lines of text that the first `n` layers take.
pub open spec fn spec_requests(layers: Seq<Option<Layer>>, n: nat) -> Seq<(Seq<char>, Fixed)>
    decreases n,
{
    if n == 0 || n > layers.len() {
        Seq::<(Seq<char>, Fixed)>::empty()
    } else {
        spec_requests(layers, (n - 1) as nat) + match layers[n - 1] {
            Some(layer) => spec_source_requests(layer.source),
            None => Seq::<(Seq<char>, Fixed)>::empty(),
        }
    }
}

/// Requests as pairs of text and size.
pub open spec fn request_views(requests: Seq<TextRequest>) -> Seq<(Seq<char>, Fixed)> {
    Seq::new(requests.len(), |i: int| (requests[i].text@, requests[i].size))
}

/// A plan of `n` flying cards takes two lines of text a card.
pub proof fn lemma_flying_requests_len(plan: Seq<FlyingCard>, n: nat)
    requires
        n <= plan.len(),
    ensures
        spec_flying_requests(plan, n).len() == 2 * n,
    decreases n,
{
    if n > 0 {
        lemma_flying_requests_len(plan, (n - 1) as nat);
    }
}

/// The lines of text that layers ask for are as many as the glyph runs that
/// drawing them takes.
pub proof fn lemma_requests_match_cursor(layers: Seq<Option<Layer>>, n: nat)
    requires
        n <= layers.len(),
    ensures
        spec_requests(layers, n).len() == spec_cursor(layers, n),
    decreases n,
{
    if n > 0 {
        lemma_requests_match_cursor(layers, (n - 1) as nat);
        match layers[n - 1] {
            Some(layer) => {
                match layer.source {
                    Source::FlyingCards { width, height, cards: count, seed } => {
                        lemma_deal_many_len(seeded_state(seed), width, height, count as nat);
                        lemma_flying_requests_len(
                            spec_deal_many(seeded_state(seed), width, height, count as nat).0,
                            count as nat,
                        );
                    },
                    _ => {},
                }
            },
            None => {},
        }
    }
}

fn push_request(out: &mut Vec<TextRequest>, text: String, size: Fixed)
    ensures
        request_views(final(out)@) == request_views(old(out)@).push((text@, size)),
{
    out.push(TextRequest { text, size });
    assert(request_views(out@) =~= request_views(old(out)@).push((text@, size)));
}

fn push_card_requests(out: &mut Vec<TextRequest>, card: &Card, width: u32, height: u32)
    ensures
        request_views(final(out)@) == request_views(old(out)@) + spec_card_requests(
            *card,
            width,
            height,
        ),
{
    push_request(out, card.card_type.display_text(), Card::symbol_size(width, height));
    push_request(out, card.card_type.corner_text(), Card::corner_size(width, height));
    assert(request_views(out@) =~= request_views(old(out)@) + spec_card_requests(
        *card,
        width,
        height,
    ));
}
#[verifier::rlimit(50)]

fn push_source_requests(out: &mut Vec<TextRequest>, source: &Source)
    ensures
        request_views(final(out)@) == request_views(old(out)@) + spec_source_requests(*source),
{
    match source {
        Source::Text { text, size, style, halo } => {
            push_request(out, String::from_str(*text), *size);
            assert(request_views(out@) =~= request_views(old(out)@) + spec_source_requests(
                *source,
            ));
        },
        Source::Card { card, width, height } => {
            push_card_requests(out, card, *width, *height);
        },
        Source::FlyingCards { width, height, cards: count, seed } => {
            let plan = CardRenderer::plan_flying_cards(*width, *height, *count as usize, *seed);
            proof {
                lemma_deal_many_len(seeded_state(*seed), *width, *height, *count as nat);
            }
            let mut i: usize = 0;
            while i < plan.len()
                invariant
                    i <= plan@.len(),
                    plan@.len() == *count,
                    request_views(out@) == request_views(old(out)@) + spec_flying_requests(
                        plan@,
                        i as nat,
                    ),
                decreases plan@.len() - i,
            {
                let ghost before = request_views(out@);
                let card = &plan[i];
                push_card_requests(out, &card.card, card.width, card.height);
                assert(request_views(out@) =~= request_views(old(out)@) + spec_flying_requests(
                    plan@,
                    (i + 1) as nat,
                ));
                i = i + 1;
            }
        },
        Source::CardStack { first, second, width, height, offset } => {
            push_card_requests(out, first, *width, *height);
            push_card_requests(out, second, *width, *height);
            assert(request_views(out@) =~= request_views(old(out)@) + spec_source_requests(
                *source,
            ));
        },
        _ => {
            assert(request_views(out@) =~= request_views(old(out)@) + spec_source_requests(
                *source,
            ));
        },
    }
}

/// The lines of text that the layers given take, in the order in which
/// drawing the layers takes their glyph runs.
#[verifier::rlimit(50)]
pub fn layer_requests(layers: &Vec<Option<Layer>>) -> (requests: Vec<TextRequest>)
    ensures
        request_views(requests@) == spec_requests(layers@, layers@.len()),
        requests@.len() == spec_cursor(layers@, layers@.len()),
{
    let mut requests: Vec<TextRequest> = Vec::new();
    let mut i: usize = 0;
    assert(request_views(requests@) =~= spec_requests(layers@, 0));
    while i < layers.len()
        invariant
            i <= layers@.len(),
            request_views(requests@) == spec_requests(layers@, i as nat),
        decreases layers@.len() - i,
    {
        match &layers[i] {
            Some(layer) => {
                push_source_requests(&mut requests, &layer.source);
            },
            None => {
                assert(request_views(requests@) =~= spec_requests(layers@, (i + 1) as nat));
            },
        }
        i = i + 1;
    }
    proof {
        lemma_requests_match_cursor(layers@, layers@.len());
    }
    requests
}

/// Holds the timeline of the video and draws its frames.
pub struct SceneManager {
    pub composer: FrameComposer,
    pub character: Character,
    pub text_renderer: TextRenderer,
    pub scenes: Vec<SceneTiming>,
}

impl SceneManager {
    /// The manager holds the seven windows of the video, and a frame of its
    /// extent can be allocated.
    pub open spec fn wf(&self) -> bool {
        &&& self.scenes@ == spec_timeline()
        &&& fits_memory(self.composer.width as int, self.composer.height as int)
    }

    /// The manager of the video of 1080 by 1920 pixels.
    pub fn new() -> (m: SceneManager)
        ensures
            m.wf(),
            m.composer == FrameComposer::new(1080, 1920),
            m.character == Character::new(),
    {
        assert(32 * 1080 * 1920 <= usize::MAX) by {
            assert(32 * 1080 * 1920 == 66_355_200) by (nonlinear_arith);
        }
        SceneManager::with_size(1080, 1920)
    }

    /// The manager of a video with frames of the extent given.
#[verifier::rlimit(50)]
    pub fn with_size(width: u32, height: u32) -> (m: SceneManager)
        requires
            fits_memory(width as int, height as int),
        ensures
            m.wf(),
            m.composer == FrameComposer::new(width, height),
            m.character == Character::new(),
    {
        let mut scenes: Vec<SceneTiming> = Vec::new();
        scenes.push(SceneTiming::new(Fixed::from_int(0), Fixed::from_int(3)));
        scenes.push(SceneTiming::new(Fixed::from_int(3), Fixed::from_int(15)));
        scenes.push(SceneTiming::new(Fixed::from_int(15), Fixed::from_int(30)));
        scenes.push(SceneTiming::new(Fixed::from_int(30), Fixed::from_int(45)));
        scenes.push(SceneTiming::new(Fixed::from_int(45), Fixed::from_int(60)));
        scenes.push(SceneTiming::new(Fixed::from_int(60), Fixed::from_int(70)));
        scenes.push(SceneTiming::new(Fixed::from_int(70), Fixed::from_int(75)));
        assert(scenes@ =~= spec_timeline());
        SceneManager {
            composer: FrameComposer::new(width, height),
            character: Character::new(),
            text_renderer: TextRenderer::new(),
            scenes,
        }
    }

    /// Index of the scene that is on at `time`: that of the first of the
    /// first six windows that holds the instant, and the last scene for any
    /// instant that none of them holds.
    pub open spec fn spec_scene_index(&self, time: Fixed) -> int {
        if spec_timeline()[0].contains(time) {
            0
        } else if spec_timeline()[1].contains(time) {
            1
        } else if spec_timeline()[2].contains(time) {
            2
        } else if spec_timeline()[3].contains(time) {
            3
        } else if spec_timeline()[4].contains(time) {
            4
        } else if spec_timeline()[5].contains(time) {
            5
        } else {
            6
        }
    }

    pub fn scene_index(&self, time: Fixed) -> (index: usize)
        requires
            self.wf(),
        ensures
            index == self.spec_scene_index(time),
            index < 7,
    {
        if self.scenes[0].contains(time) {
            0
        } else if self.scenes[1].contains(time) {
            1
        } else if self.scenes[2].contains(time) {
            2
        } else if self.scenes[3].contains(time) {
            3
        } else if self.scenes[4].contains(time) {
            4
        } else if self.scenes[5].contains(time) {
            5
        } else {
            6
        }
    }

    /// The layers of the frame at `time`, back to front: those of the scene
    /// that is on, with the progress of its window.
    pub open spec fn spec_layers(&self, time: Fixed) -> Seq<Option<Layer>> {
        if self.spec_scene_index(time) == 0 {
            spec_scene_1(self.composer.width, self.composer.height, time, spec_timeline()[0].progress(time).fixed())
        } else if self.spec_scene_index(time) == 1 {
            spec_scene_2(self.composer.width, self.composer.height, time, spec_timeline()[1].progress(time).fixed())
        } else if self.spec_scene_index(time) == 2 {
            spec_scene_3(self.composer.width, self.composer.height, time, spec_timeline()[2].progress(time).fixed())
        } else if self.spec_scene_index(time) == 3 {
            spec_scene_4(self.composer.width, self.composer.height, time, spec_timeline()[3].progress(time).fixed())
        } else if self.spec_scene_index(time) == 4 {
            spec_scene_5(self.composer.width, self.composer.height, time, spec_timeline()[4].progress(time).fixed())
        } else if self.spec_scene_index(time) == 5 {
            spec_scene_6(self.composer.width, self.composer.height, time, spec_timeline()[5].progress(time).fixed())
        } else {
            spec_scene_7(self.composer.width, self.composer.height, time, spec_timeline()[6].progress(time).fixed())
        }
    }
#[verifier::rlimit(50)]

    pub fn layers(&self, time: Fixed, frame_num: u32) -> (layers: Vec<Option<Layer>>)
        requires
            self.wf(),
        ensures
            layers@ == self.spec_layers(time),
            layers@.len() <= 64,
    {
        let index: usize = self.scene_index(time);
        if index == 0 {
            scene_1(self.composer.width, self.composer.height, time, self.scenes[0].progress(time).fixed())
        } else if index == 1 {
            scene_2(self.composer.width, self.composer.height, time, self.scenes[1].progress(time).fixed())
        } else if index == 2 {
            scene_3(self.composer.width, self.composer.height, time, self.scenes[2].progress(time).fixed())
        } else if index == 3 {
            scene_4(self.composer.width, self.composer.height, time, self.scenes[3].progress(time).fixed())
        } else if index == 4 {
            scene_5(self.composer.width, self.composer.height, time, self.scenes[4].progress(time).fixed())
        } else if index == 5 {
            scene_6(self.composer.width, self.composer.height, time, self.scenes[5].progress(time).fixed())
        } else {
            scene_7(self.composer.width, self.composer.height, time, self.scenes[6].progress(time).fixed())
        }
    }

    /// The lines of text that have to be rasterised for the frame at `time`,
    /// each with its size in pixels, in the order in which `render_frame`
    /// takes their glyph runs.
    pub fn text_requests(&self, time: Fixed, frame_num: u32) -> (requests: Vec<TextRequest>)
        requires
            self.wf(),
        ensures
            request_views(requests@) == spec_requests(
                self.spec_layers(time),
                self.spec_layers(time).len(),
            ),
            requests@.len() == spec_cursor(self.spec_layers(time), self.spec_layers(time).len()),
    {
        let layers = self.layers(time, frame_num);
        layer_requests(&layers)
    }

    /// Whether `frame` is the frame of the instant `time` with the glyph runs
    /// given: it has the extent of the composer, and each of its pixels is
    /// what the layers of that instant make of a blank frame.
    pub open spec fn is_frame(&self, time: Fixed, runs: Seq<GlyphRun>, frame: Canvas) -> bool {
        &&& frame.spec_width() == self.composer.width
        &&& frame.spec_height() == self.composer.height
        &&& forall|x: int, y: int|
            frame.contains(x, y) ==> #[trigger] frame.at(x, y) == spec_frame(
                &self.character,
                self.spec_layers(time),
                runs,
                self.composer.width,
                self.composer.height,
                x,
                y,
                self.spec_layers(time).len(),
            )
    }

    /// The frame of the instant `time`. `runs` holds the glyph runs of the
    /// lines of text that `text_requests` lists for that instant, in that
    /// order; a layer whose runs are missing is left out.
    pub fn render_frame(&self, time: Fixed, frame_num: u32, runs: &Vec<GlyphRun>) -> (frame: Canvas)
        requires
            self.wf(),
        ensures
            self.is_frame(time, runs@, frame),
    {
        let layers = self.layers(time, frame_num);
        proof {
            lemma_cursor_bound(layers@, layers@.len());
        }
        compose(&self.character, &layers, runs, self.composer.width, self.composer.height)
    }
}

impl Default for SceneManager {
    fn default() -> (m: SceneManager)
        ensures
            m.wf(),
    {
        SceneManager::new()
    }
}

/// A frame is a function of the instant and of the glyph runs alone: two
/// frames of the same instant with the same runs agree in every pixel.
pub proof fn lemma_frames_agree(m: &SceneManager, time: Fixed, runs: Seq<GlyphRun>, a: Canvas, b: Canvas)
    requires
        m.is_frame(time, runs, a),
        m.is_frame(time, runs, b),
    ensures
        a.same_as(b),
{
}

} // verus!
