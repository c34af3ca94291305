//! The cartoon character and its six expressions.

use vstd::prelude::*;
use crate::canvas::{fits_memory, Canvas, PixelRule};
use crate::color::Color;
use crate::fixed::Fixed;
use crate::shapes::{
    ellipse_outline, hypot, shaded_ellipse, smooth_ellipse, EllipseFill, EllipseRing,
    ShadedEllipse,
};

verus! {

/// The expressions of the character.
#[derive(Debug, Clone, Copy, PartialEq, Eq, Structural)]
pub enum Expression {
    Neutral,
    Shocked,
    Serious,
    Mischievous,
    MindBlown,
    Whispering,
}

/// The palette of the character.
#[derive(Debug, Clone, Copy, PartialEq, Eq, Structural)]
pub struct CharacterColors {
    pub skin: Color,
    pub skin_shadow: Color,
    pub skin_highlight: Color,
    pub outline: Color,
    pub hair: Color,
    pub hair_highlight: Color,
    pub hair_shadow: Color,
    pub eye_white: Color,
    pub eye_pupil: Color,
    pub eye_iris: Color,
    pub eye_shine: Color,
    pub mouth: Color,
    pub mouth_dark: Color,
    pub teeth: Color,
    pub tongue: Color,
    pub blush: Color,
    pub shirt: Color,
    pub shirt_shadow: Color,
    pub shirt_highlight: Color,
}

impl CharacterColors {
    /// The palette that the character is drawn in.
    pub open spec fn spec_standard() -> CharacterColors {
        CharacterColors {
            skin: Color::rgba(255, 218, 185, 255),
            skin_shadow: Color::rgba(235, 180, 145, 255),
            skin_highlight: Color::rgba(255, 238, 220, 255),
            outline: Color::rgba(55, 45, 45, 255),
            hair: Color::rgba(45, 32, 22, 255),
            hair_highlight: Color::rgba(85, 60, 40, 255),
            hair_shadow: Color::rgba(30, 22, 15, 255),
            eye_white: Color::rgba(252, 252, 255, 255),
            eye_pupil: Color::rgba(15, 15, 20, 255),
            eye_iris: Color::rgba(75, 55, 35, 255),
            eye_shine: Color::rgba(255, 255, 255, 255),
            mouth: Color::rgba(210, 105, 105, 255),
            mouth_dark: Color::rgba(60, 25, 25, 255),
            teeth: Color::rgba(255, 255, 252, 255),
            tongue: Color::rgba(220, 130, 130, 255),
            blush: Color::rgba(255, 180, 180, 80),
            shirt: Color::rgba(220, 55, 55, 255),
            shirt_shadow: Color::rgba(170, 35, 35, 255),
            shirt_highlight: Color::rgba(250, 95, 95, 255),
        }
    }

    #[verifier::when_used_as_spec(spec_standard)]
    pub fn standard() -> (c: CharacterColors)
        ensures
            c == CharacterColors::spec_standard(),
    {
        CharacterColors {
            skin: Color::rgba(255, 218, 185, 255),
            skin_shadow: Color::rgba(235, 180, 145, 255),
            skin_highlight: Color::rgba(255, 238, 220, 255),
            outline: Color::rgba(55, 45, 45, 255),
            hair: Color::rgba(45, 32, 22, 255),
            hair_highlight: Color::rgba(85, 60, 40, 255),
            hair_shadow: Color::rgba(30, 22, 15, 255),
            eye_white: Color::rgba(252, 252, 255, 255),
            eye_pupil: Color::rgba(15, 15, 20, 255),
            eye_iris: Color::rgba(75, 55, 35, 255),
            eye_shine: Color::rgba(255, 255, 255, 255),
            mouth: Color::rgba(210, 105, 105, 255),
            mouth_dark: Color::rgba(60, 25, 25, 255),
            teeth: Color::rgba(255, 255, 252, 255),
            tongue: Color::rgba(220, 130, 130, 255),
            blush: Color::rgba(255, 180, 180, 80),
            shirt: Color::rgba(220, 55, 55, 255),
            shirt_shadow: Color::rgba(170, 35, 35, 255),
            shirt_highlight: Color::rgba(250, 95, 95, 255),
        }
    }
}

impl Default for CharacterColors {
    fn default() -> (c: CharacterColors)
        ensures
            c == CharacterColors::spec_standard(),
    {
        CharacterColors::standard()
    }
}

/// An eyebrow: a flat ellipse of 38 units across that is sheared by its
/// angle.
pub struct Eyebrow {
    pub cx: Fixed,
    pub cy: Fixed,
    pub s: Fixed,
    pub angle: Fixed,
    pub thickness: Fixed,
    pub color: Color,
}

/// First column (or row) of the window scanned for an eyebrow.
pub open spec fn spec_brow_start(c: Fixed, r: Fixed) -> u32 {
    c.minus(r).upper(Fixed::zero()).extent()
}

#[verifier::when_used_as_spec(spec_brow_start)]
pub fn brow_start(c: Fixed, r: Fixed) -> (p: u32)
    ensures
        p == spec_brow_start(c, r),
{
    c.minus(r).upper(Fixed::zero()).extent()
}

/// One past the last column (or row) of the window scanned for an eyebrow.
pub open spec fn spec_brow_end(c: Fixed, r: Fixed) -> u32 {
    c.plus(r).extent()
}

#[verifier::when_used_as_spec(spec_brow_end)]
pub fn brow_end(c: Fixed, r: Fixed) -> (p: u32)
    ensures
        p == spec_brow_end(c, r),
{
    c.plus(r).extent()
}

impl Eyebrow {
    /// Half the length of the eyebrow.
    pub open spec fn spec_half_length(&self) -> Fixed {
        self.s.times(Fixed::from_int(38))
    }

    #[verifier::when_used_as_spec(spec_half_length)]
    pub fn half_length(&self) -> (r: Fixed)
        ensures
            r == self.spec_half_length(),
    {
        self.s.times(Fixed::from_int(38))
    }

    /// Half the thickness of the eyebrow.
    pub open spec fn spec_half_height(&self) -> Fixed {
        self.thickness.times(Fixed::millionths(600_000)).times(self.s)
    }

    #[verifier::when_used_as_spec(spec_half_height)]
    pub fn half_height(&self) -> (r: Fixed)
        ensures
            r == self.spec_half_height(),
    {
        self.thickness.times(Fixed::millionths(600_000)).times(self.s)
    }

    /// Distance of `(px, py)` from the middle line of the eyebrow, normalised so
    /// that its outline lies at one: the row is taken relative to a line that
    /// rises or falls with the angle.
    pub open spec fn spec_level(&self, px: u32, py: u32) -> Fixed {
        let dx = Fixed::from_int(px as i64).minus(self.cx).over(self.half_length());
        let lean = dx.times(self.angle).times(Fixed::from_int(20)).times(self.s);
        hypot(dx, Fixed::from_int(py as i64).minus(self.cy).minus(lean).over(self.half_height()))
    }

    #[verifier::when_used_as_spec(spec_level)]
    pub fn level(&self, px: u32, py: u32) -> (r: Fixed)
        ensures
            r == self.spec_level(px, py),
    {
        let dx = Fixed::from_int(px as i64).minus(self.cx).over(self.half_length());
        let lean = dx.times(self.angle).times(Fixed::from_int(20)).times(self.s);
        hypot(dx, Fixed::from_int(py as i64).minus(self.cy).minus(lean).over(self.half_height()))
    }

    /// Inside the outline the colour is blended over the pixel; in the band from
    /// 1 to 1.1 with an alpha that falls from 255 to nothing.
    pub open spec fn spec_tint(&self, old: Color, px: u32, py: u32) -> Color {
        let level = self.level(px, py);
        if level.below(Fixed::one()) {
            Color::paint_over(self.color, old)
        } else if level.below(Fixed::millionths(1_100_000)) {
            Color::paint_over(
                self.color.with_alpha(
                    Fixed::millionths(1_100_000).minus(level).over(Fixed::millionths(100_000)).times(
                        Fixed::from_int(255),
                    ).channel(),
                ),
                old,
            )
        } else {
            old
        }
    }

    #[verifier::when_used_as_spec(spec_tint)]
    pub fn tint(&self, old: Color, px: u32, py: u32) -> (r: Color)
        ensures
            r == self.spec_tint(old, px, py),
    {
        let level = self.level(px, py);
        if level.below(Fixed::one()) {
            Color::paint_over(self.color, old)
        } else if level.below(Fixed::millionths(1_100_000)) {
            Color::paint_over(
                self.color.with_alpha(
                    Fixed::millionths(1_100_000).minus(level).over(Fixed::millionths(100_000)).times(
                        Fixed::from_int(255),
                    ).channel(),
                ),
                old,
            )
        } else {
            old
        }
    }

    /// Whether `(x, y)` lies in the window that is scanned for the eyebrow:
    /// its length across and three times its thickness down.
    pub open spec fn in_window(&self, x: int, y: int) -> bool {
        &&& spec_brow_start(self.cx, self.spec_half_length()) <= x < spec_brow_end(
            self.cx,
            self.spec_half_length(),
        )
        &&& spec_brow_start(self.cy, self.spec_half_height().times(Fixed::from_int(3))) <= y
            < spec_brow_end(self.cy, self.spec_half_height().times(Fixed::from_int(3)))
    }

    /// What drawing the eyebrow makes of the pixel `(x, y)`.
    pub open spec fn spec_drawn(&self, old: Color, x: int, y: int) -> Color {
        if self.in_window(x, y) {
            self.spec_shade(old, x, y)
        } else {
            old
        }
    }
}

impl PixelRule for Eyebrow {
    open spec fn spec_shade(&self, old: Color, x: int, y: int) -> Color {
        self.spec_tint(old, x as u32, y as u32)
    }

    fn shade(&self, old: Color, x: u32, y: u32) -> (c: Color) {
        self.tint(old, x, y)
    }
}

/// Draws an eyebrow around `(cx, cy)` at the scale `s`.
#[verifier::rlimit(50)]
pub fn draw_eyebrow(img: &mut Canvas, cx: Fixed, cy: Fixed, s: Fixed, angle: Fixed, thickness: Fixed, color: Color)
    ensures
        final(img).spec_width() == old(img).spec_width(),
        final(img).spec_height() == old(img).spec_height(),
        forall|x: int, y: int|
            final(img).contains(x, y) ==> #[trigger] final(img).at(x, y) == (Eyebrow {
                cx,
                cy,
                s,
                angle,
                thickness,
                color,
            }).spec_drawn(old(img).at(x, y), x, y),
{
    let brow = Eyebrow { cx, cy, s, angle, thickness, color };
    let reach_x = brow.half_length();
    let reach_y = brow.half_height().times(Fixed::from_int(3));
    img.paint_region(
        &brow,
        brow_start(cx, reach_x),
        brow_start(cy, reach_y),
        brow_end(cx, reach_x),
        brow_end(cy, reach_y),
    );
}

/// The character renderer.
#[derive(Debug, Clone, Copy, PartialEq, Eq, Structural)]
pub struct Character {
    pub colors: CharacterColors,
}

impl Character {
    pub open spec fn spec_new() -> Character {
        Character { colors: CharacterColors::standard() }
    }

    #[verifier::when_used_as_spec(spec_new)]
    pub fn new() -> (c: Character)
        ensures
            c == Character::spec_new(),
    {
        Character { colors: CharacterColors::standard() }
    }

    /// The pixel `(px, py)` once the shirt has been drawn over `acc`: a shaded
    /// ellipse, its outline and the collar.
    pub open spec fn spec_body(&self, acc: Color, px: int, py: int, cx: Fixed, cy: Fixed, s: Fixed) -> Color {
        (EllipseFill { cx: cx, cy: cy.plus(s.times(Fixed::millionths(75_000_000).negated())), rx: s.times(Fixed::millionths(35_000_000)), ry: s.times(Fixed::millionths(20_000_000)), color: self.colors.shirt_shadow }).spec_shade(
            (EllipseRing {
                cx: cx,
                cy: cy,
                rx: s.times(Fixed::millionths(140_000_000)),
                ry: s.times(Fixed::millionths(120_000_000)),
                thickness: s.times(Fixed::millionths(3_000_000)),
                color: self.colors.outline,
            }).spec_shade(
                (ShadedEllipse {
                    cx: cx,
                    cy: cy,
                    rx: s.times(Fixed::millionths(140_000_000)),
                    ry: s.times(Fixed::millionths(120_000_000)),
                    base: self.colors.shirt,
                    shadow: self.colors.shirt_shadow,
                    highlight: self.colors.shirt_highlight,
                }).spec_shade(
                    acc,
                    px,
                    py,
                ),
                px,
                py,
            ),
            px,
            py,
        )
    }
#[verifier::rlimit(50)]

    pub fn draw_body(&self, img: &mut Canvas, cx: Fixed, cy: Fixed, s: Fixed)
        ensures
            final(img).spec_width() == old(img).spec_width(),
            final(img).spec_height() == old(img).spec_height(),
            forall|x: int, y: int|
                final(img).contains(x, y) ==> #[trigger] final(img).at(x, y) == self.spec_body(
                    old(img).at(x, y),
                    x,
                    y,
                    cx,
                    cy,
                    s,
                ),
    {
        shaded_ellipse(
            img,
            cx,
            cy,
            s.times(Fixed::millionths(140_000_000)),
            s.times(Fixed::millionths(120_000_000)),
            self.colors.shirt,
            self.colors.shirt_shadow,
            self.colors.shirt_highlight,
        );
        ellipse_outline(img, cx, cy, s.times(Fixed::millionths(140_000_000)), s.times(Fixed::millionths(120_000_000)), s.times(Fixed::millionths(3_000_000)), self.colors.outline);
        smooth_ellipse(img, cx, cy.plus(s.times(Fixed::millionths(75_000_000).negated())), s.times(Fixed::millionths(35_000_000)), s.times(Fixed::millionths(20_000_000)), self.colors.shirt_shadow);
    }

    /// The pixel `(px, py)` once the neck has been drawn over `acc`.
    pub open spec fn spec_neck(&self, acc: Color, px: int, py: int, cx: Fixed, cy: Fixed, s: Fixed) -> Color {
        (ShadedEllipse {
            cx: cx,
            cy: cy,
            rx: s.times(Fixed::millionths(35_000_000)),
            ry: s.times(Fixed::millionths(55_000_000)),
            base: self.colors.skin,
            shadow: self.colors.skin_shadow,
            highlight: self.colors.skin,
        }).spec_shade(
            acc,
            px,
            py,
        )
    }
#[verifier::rlimit(50)]

    pub fn draw_neck(&self, img: &mut Canvas, cx: Fixed, cy: Fixed, s: Fixed)
        ensures
            final(img).spec_width() == old(img).spec_width(),
            final(img).spec_height() == old(img).spec_height(),
            forall|x: int, y: int|
                final(img).contains(x, y) ==> #[trigger] final(img).at(x, y) == self.spec_neck(
                    old(img).at(x, y),
                    x,
                    y,
                    cx,
                    cy,
                    s,
                ),
    {
        shaded_ellipse(
            img,
            cx,
            cy,
            s.times(Fixed::millionths(35_000_000)),
            s.times(Fixed::millionths(55_000_000)),
            self.colors.skin,
            self.colors.skin_shadow,
            self.colors.skin,
        );
    }

    /// The pixel `(px, py)` once the head has been drawn over `acc`: the outline
    /// as a slightly larger ellipse, then the shaded head.
    pub open spec fn spec_head(&self, acc: Color, px: int, py: int, cx: Fixed, cy: Fixed, s: Fixed) -> Color {
        (ShadedEllipse {
            cx: cx,
            cy: cy,
            rx: s.times(Fixed::millionths(115_000_000)),
            ry: s.times(Fixed::millionths(135_000_000)),
            base: self.colors.skin,
            shadow: self.colors.skin_shadow,
            highlight: self.colors.skin_highlight,
        }).spec_shade(
            (EllipseFill { cx: cx, cy: cy, rx: s.times(Fixed::millionths(118_000_000)), ry: s.times(Fixed::millionths(138_000_000)), color: self.colors.outline }).spec_shade(
                acc,
                px,
                py,
            ),
            px,
            py,
        )
    }
#[verifier::rlimit(50)]

    pub fn draw_head(&self, img: &mut Canvas, cx: Fixed, cy: Fixed, s: Fixed)
        ensures
            final(img).spec_width() == old(img).spec_width(),
            final(img).spec_height() == old(img).spec_height(),
            forall|x: int, y: int|
                final(img).contains(x, y) ==> #[trigger] final(img).at(x, y) == self.spec_head(
                    old(img).at(x, y),
                    x,
                    y,
                    cx,
                    cy,
                    s,
                ),
    {
        smooth_ellipse(img, cx, cy, s.times(Fixed::millionths(118_000_000)), s.times(Fixed::millionths(138_000_000)), self.colors.outline);
        shaded_ellipse(
            img,
            cx,
            cy,
            s.times(Fixed::millionths(115_000_000)),
            s.times(Fixed::millionths(135_000_000)),
            self.colors.skin,
            self.colors.skin_shadow,
            self.colors.skin_highlight,
        );
    }

    /// The pixel `(px, py)` once both ears have been drawn over `acc`.
    pub open spec fn spec_ears(&self, acc: Color, px: int, py: int, cx: Fixed, cy: Fixed, s: Fixed) -> Color {
        (EllipseFill { cx: cx.plus(s.times(Fixed::millionths(108_000_000))), cy: cy.plus(s.times(Fixed::millionths(10_000_000).negated())), rx: s.times(Fixed::millionths(12_000_000)), ry: s.times(Fixed::millionths(18_000_000)), color: self.colors.skin_shadow }).spec_shade(
            (ShadedEllipse {
                cx: cx.plus(s.times(Fixed::millionths(108_000_000))),
                cy: cy.plus(s.times(Fixed::millionths(10_000_000).negated())),
                rx: s.times(Fixed::millionths(22_000_000)),
                ry: s.times(Fixed::millionths(32_000_000)),
                base: self.colors.skin,
                shadow: self.colors.skin_shadow,
                highlight: self.colors.skin,
            }).spec_shade(
                (EllipseFill { cx: cx.plus(s.times(Fixed::millionths(108_000_000).negated())), cy: cy.plus(s.times(Fixed::millionths(10_000_000).negated())), rx: s.times(Fixed::millionths(12_000_000)), ry: s.times(Fixed::millionths(18_000_000)), color: self.colors.skin_shadow }).spec_shade(
                    (ShadedEllipse {
                        cx: cx.plus(s.times(Fixed::millionths(108_000_000).negated())),
                        cy: cy.plus(s.times(Fixed::millionths(10_000_000).negated())),
                        rx: s.times(Fixed::millionths(22_000_000)),
                        ry: s.times(Fixed::millionths(32_000_000)),
                        base: self.colors.skin,
                        shadow: self.colors.skin_shadow,
                        highlight: self.colors.skin,
                    }).spec_shade(
                        acc,
                        px,
                        py,
                    ),
                    px,
                    py,
                ),
                px,
                py,
            ),
            px,
            py,
        )
    }
#[verifier::rlimit(50)]

    pub fn draw_ears(&self, img: &mut Canvas, cx: Fixed, cy: Fixed, s: Fixed)
        ensures
            final(img).spec_width() == old(img).spec_width(),
            final(img).spec_height() == old(img).spec_height(),
            forall|x: int, y: int|
                final(img).contains(x, y) ==> #[trigger] final(img).at(x, y) == self.spec_ears(
                    old(img).at(x, y),
                    x,
                    y,
                    cx,
                    cy,
                    s,
                ),
    {
        shaded_ellipse(
            img,
            cx.plus(s.times(Fixed::millionths(108_000_000).negated())),
            cy.plus(s.times(Fixed::millionths(10_000_000).negated())),
            s.times(Fixed::millionths(22_000_000)),
            s.times(Fixed::millionths(32_000_000)),
            self.colors.skin,
            self.colors.skin_shadow,
            self.colors.skin,
        );
        smooth_ellipse(img, cx.plus(s.times(Fixed::millionths(108_000_000).negated())), cy.plus(s.times(Fixed::millionths(10_000_000).negated())), s.times(Fixed::millionths(12_000_000)), s.times(Fixed::millionths(18_000_000)), self.colors.skin_shadow);
        shaded_ellipse(
            img,
            cx.plus(s.times(Fixed::millionths(108_000_000))),
            cy.plus(s.times(Fixed::millionths(10_000_000).negated())),
            s.times(Fixed::millionths(22_000_000)),
            s.times(Fixed::millionths(32_000_000)),
            self.colors.skin,
            self.colors.skin_shadow,
            self.colors.skin,
        );
        smooth_ellipse(img, cx.plus(s.times(Fixed::millionths(108_000_000))), cy.plus(s.times(Fixed::millionths(10_000_000).negated())), s.times(Fixed::millionths(12_000_000)), s.times(Fixed::millionths(18_000_000)), self.colors.skin_shadow);
    }

    /// The pixel `(px, py)` once the hair has been drawn over `acc`: the main
    /// mass, eight spikes, three shiny spots and two bangs.
    pub open spec fn spec_hair(&self, acc: Color, px: int, py: int, cx: Fixed, cy: Fixed, s: Fixed) -> Color {
        (ShadedEllipse {
            cx: cx.plus(s.times(Fixed::millionths(22_000_000))),
            cy: cy.plus(s.times(Fixed::millionths(24_000_000))),
            rx: s.times(Fixed::millionths(32_000_000)),
            ry: s.times(Fixed::millionths(20_000_000)),
            base: self.colors.hair,
            shadow: self.colors.hair_shadow,
            highlight: self.colors.hair_highlight,
        }).spec_shade(
            (ShadedEllipse {
                cx: cx.plus(s.times(Fixed::millionths(32_000_000).negated())),
                cy: cy.plus(s.times(Fixed::millionths(28_000_000))),
                rx: s.times(Fixed::millionths(38_000_000)),
                ry: s.times(Fixed::millionths(22_000_000)),
                base: self.colors.hair,
                shadow: self.colors.hair_shadow,
                highlight: self.colors.hair_highlight,
            }).spec_shade(
                (EllipseFill { cx: cx.plus(s.times(Fixed::millionths(42_000_000))), cy: cy.plus(s.times(Fixed::millionths(52_000_000).negated())), rx: s.times(Fixed::millionths(10_000_000)), ry: s.times(Fixed::millionths(10_000_000)), color: self.colors.hair_highlight }).spec_shade(
                    (EllipseFill { cx: cx.plus(s.times(Fixed::millionths(12_000_000))), cy: cy.plus(s.times(Fixed::millionths(68_000_000).negated())), rx: s.times(Fixed::millionths(12_000_000)), ry: s.times(Fixed::millionths(12_000_000)), color: self.colors.hair_highlight }).spec_shade(
                        (EllipseFill { cx: cx.plus(s.times(Fixed::millionths(32_000_000).negated())), cy: cy.plus(s.times(Fixed::millionths(62_000_000).negated())), rx: s.times(Fixed::millionths(14_000_000)), ry: s.times(Fixed::millionths(14_000_000)), color: self.colors.hair_highlight }).spec_shade(
                            (ShadedEllipse {
                                cx: cx.plus(s.times(Fixed::millionths(82_000_000))),
                                cy: cy.plus(s.times(Fixed::millionths(28_000_000).negated())),
                                rx: s.times(Fixed::millionths(18_000_000)),
                                ry: s.times(Fixed::millionths(23_400_000)),
                                base: self.colors.hair,
                                shadow: self.colors.hair_shadow,
                                highlight: self.colors.hair_highlight,
                            }).spec_shade(
                                (ShadedEllipse {
                                    cx: cx.plus(s.times(Fixed::millionths(80_000_000).negated())),
                                    cy: cy.plus(s.times(Fixed::millionths(32_000_000).negated())),
                                    rx: s.times(Fixed::millionths(20_000_000)),
                                    ry: s.times(Fixed::millionths(26_000_000)),
                                    base: self.colors.hair,
                                    shadow: self.colors.hair_shadow,
                                    highlight: self.colors.hair_highlight,
                                }).spec_shade(
                                    (ShadedEllipse {
                                        cx: cx.plus(s.times(Fixed::millionths(72_000_000))),
                                        cy: cy.plus(s.times(Fixed::millionths(42_000_000).negated())),
                                        rx: s.times(Fixed::millionths(22_000_000)),
                                        ry: s.times(Fixed::millionths(28_600_000)),
                                        base: self.colors.hair,
                                        shadow: self.colors.hair_shadow,
                                        highlight: self.colors.hair_highlight,
                                    }).spec_shade(
                                        (ShadedEllipse {
                                            cx: cx.plus(s.times(Fixed::millionths(52_000_000))),
                                            cy: cy.plus(s.times(Fixed::millionths(60_000_000).negated())),
                                            rx: s.times(Fixed::millionths(26_000_000)),
                                            ry: s.times(Fixed::millionths(33_800_000)),
                                            base: self.colors.hair,
                                            shadow: self.colors.hair_shadow,
                                            highlight: self.colors.hair_highlight,
                                        }).spec_shade(
                                            (ShadedEllipse {
                                                cx: cx.plus(s.times(Fixed::millionths(25_000_000))),
                                                cy: cy.plus(s.times(Fixed::millionths(75_000_000).negated())),
                                                rx: s.times(Fixed::millionths(30_000_000)),
                                                ry: s.times(Fixed::millionths(39_000_000)),
                                                base: self.colors.hair,
                                                shadow: self.colors.hair_shadow,
                                                highlight: self.colors.hair_highlight,
                                            }).spec_shade(
                                                (ShadedEllipse {
                                                    cx: cx.plus(s.times(Fixed::millionths(8_000_000).negated())),
                                                    cy: cy.plus(s.times(Fixed::millionths(82_000_000).negated())),
                                                    rx: s.times(Fixed::millionths(32_000_000)),
                                                    ry: s.times(Fixed::millionths(41_600_000)),
                                                    base: self.colors.hair,
                                                    shadow: self.colors.hair_shadow,
                                                    highlight: self.colors.hair_highlight,
                                                }).spec_shade(
                                                    (ShadedEllipse {
                                                        cx: cx.plus(s.times(Fixed::millionths(38_000_000).negated())),
                                                        cy: cy.plus(s.times(Fixed::millionths(72_000_000).negated())),
                                                        rx: s.times(Fixed::millionths(28_000_000)),
                                                        ry: s.times(Fixed::millionths(36_400_000)),
                                                        base: self.colors.hair,
                                                        shadow: self.colors.hair_shadow,
                                                        highlight: self.colors.hair_highlight,
                                                    }).spec_shade(
                                                        (ShadedEllipse {
                                                            cx: cx.plus(s.times(Fixed::millionths(65_000_000).negated())),
                                                            cy: cy.plus(s.times(Fixed::millionths(55_000_000).negated())),
                                                            rx: s.times(Fixed::millionths(25_000_000)),
                                                            ry: s.times(Fixed::millionths(32_500_000)),
                                                            base: self.colors.hair,
                                                            shadow: self.colors.hair_shadow,
                                                            highlight: self.colors.hair_highlight,
                                                        }).spec_shade(
                                                            (ShadedEllipse {
                                                                cx: cx,
                                                                cy: cy.plus(s.times(Fixed::millionths(25_000_000).negated())),
                                                                rx: s.times(Fixed::millionths(105_000_000)),
                                                                ry: s.times(Fixed::millionths(75_000_000)),
                                                                base: self.colors.hair,
                                                                shadow: self.colors.hair_shadow,
                                                                highlight: self.colors.hair_highlight,
                                                            }).spec_shade(
                                                                acc,
                                                                px,
                                                                py,
                                                            ),
                                                            px,
                                                            py,
                                                        ),
                                                        px,
                                                        py,
                                                    ),
                                                    px,
                                                    py,
                                                ),
                                                px,
                                                py,
                                            ),
                                            px,
                                            py,
                                        ),
                                        px,
                                        py,
                                    ),
                                    px,
                                    py,
                                ),
                                px,
                                py,
                            ),
                            px,
                            py,
                        ),
                        px,
                        py,
                    ),
                    px,
                    py,
                ),
                px,
                py,
            ),
            px,
            py,
        )
    }
#[verifier::rlimit(50)]

    pub fn draw_hair(&self, img: &mut Canvas, cx: Fixed, cy: Fixed, s: Fixed)
        ensures
            final(img).spec_width() == old(img).spec_width(),
            final(img).spec_height() == old(img).spec_height(),
            forall|x: int, y: int|
                final(img).contains(x, y) ==> #[trigger] final(img).at(x, y) == self.spec_hair(
                    old(img).at(x, y),
                    x,
                    y,
                    cx,
                    cy,
                    s,
                ),
    {
        shaded_ellipse(
            img,
            cx,
            cy.plus(s.times(Fixed::millionths(25_000_000).negated())),
            s.times(Fixed::millionths(105_000_000)),
            s.times(Fixed::millionths(75_000_000)),
            self.colors.hair,
            self.colors.hair_shadow,
            self.colors.hair_highlight,
        );
        shaded_ellipse(
            img,
            cx.plus(s.times(Fixed::millionths(65_000_000).negated())),
            cy.plus(s.times(Fixed::millionths(55_000_000).negated())),
            s.times(Fixed::millionths(25_000_000)),
            s.times(Fixed::millionths(32_500_000)),
            self.colors.hair,
            self.colors.hair_shadow,
            self.colors.hair_highlight,
        );
        shaded_ellipse(
            img,
            cx.plus(s.times(Fixed::millionths(38_000_000).negated())),
            cy.plus(s.times(Fixed::millionths(72_000_000).negated())),
            s.times(Fixed::millionths(28_000_000)),
            s.times(Fixed::millionths(36_400_000)),
            self.colors.hair,
            self.colors.hair_shadow,
            self.colors.hair_highlight,
        );
        shaded_ellipse(
            img,
            cx.plus(s.times(Fixed::millionths(8_000_000).negated())),
            cy.plus(s.times(Fixed::millionths(82_000_000).negated())),
            s.times(Fixed::millionths(32_000_000)),
            s.times(Fixed::millionths(41_600_000)),
            self.colors.hair,
            self.colors.hair_shadow,
            self.colors.hair_highlight,
        );
        shaded_ellipse(
            img,
            cx.plus(s.times(Fixed::millionths(25_000_000))),
            cy.plus(s.times(Fixed::millionths(75_000_000).negated())),
            s.times(Fixed::millionths(30_000_000)),
            s.times(Fixed::millionths(39_000_000)),
            self.colors.hair,
            self.colors.hair_shadow,
            self.colors.hair_highlight,
        );
        shaded_ellipse(
            img,
            cx.plus(s.times(Fixed::millionths(52_000_000))),
            cy.plus(s.times(Fixed::millionths(60_000_000).negated())),
            s.times(Fixed::millionths(26_000_000)),
            s.times(Fixed::millionths(33_800_000)),
            self.colors.hair,
            self.colors.hair_shadow,
            self.colors.hair_highlight,
        );
        shaded_ellipse(
            img,
            cx.plus(s.times(Fixed::millionths(72_000_000))),
            cy.plus(s.times(Fixed::millionths(42_000_000).negated())),
            s.times(Fixed::millionths(22_000_000)),
            s.times(Fixed::millionths(28_600_000)),
            self.colors.hair,
            self.colors.hair_shadow,
            self.colors.hair_highlight,
        );
        shaded_ellipse(
            img,
            cx.plus(s.times(Fixed::millionths(80_000_000).negated())),
            cy.plus(s.times(Fixed::millionths(32_000_000).negated())),
            s.times(Fixed::millionths(20_000_000)),
            s.times(Fixed::millionths(26_000_000)),
            self.colors.hair,
            self.colors.hair_shadow,
            self.colors.hair_highlight,
        );
        shaded_ellipse(
            img,
            cx.plus(s.times(Fixed::millionths(82_000_000))),
            cy.plus(s.times(Fixed::millionths(28_000_000).negated())),
            s.times(Fixed::millionths(18_000_000)),
            s.times(Fixed::millionths(23_400_000)),
            self.colors.hair,
            self.colors.hair_shadow,
            self.colors.hair_highlight,
        );
        smooth_ellipse(img, cx.plus(s.times(Fixed::millionths(32_000_000).negated())), cy.plus(s.times(Fixed::millionths(62_000_000).negated())), s.times(Fixed::millionths(14_000_000)), s.times(Fixed::millionths(14_000_000)), self.colors.hair_highlight);
        smooth_ellipse(img, cx.plus(s.times(Fixed::millionths(12_000_000))), cy.plus(s.times(Fixed::millionths(68_000_000).negated())), s.times(Fixed::millionths(12_000_000)), s.times(Fixed::millionths(12_000_000)), self.colors.hair_highlight);
        smooth_ellipse(img, cx.plus(s.times(Fixed::millionths(42_000_000))), cy.plus(s.times(Fixed::millionths(52_000_000).negated())), s.times(Fixed::millionths(10_000_000)), s.times(Fixed::millionths(10_000_000)), self.colors.hair_highlight);
        shaded_ellipse(
            img,
            cx.plus(s.times(Fixed::millionths(32_000_000).negated())),
            cy.plus(s.times(Fixed::millionths(28_000_000))),
            s.times(Fixed::millionths(38_000_000)),
            s.times(Fixed::millionths(22_000_000)),
            self.colors.hair,
            self.colors.hair_shadow,
            self.colors.hair_highlight,
        );
        shaded_ellipse(
            img,
            cx.plus(s.times(Fixed::millionths(22_000_000))),
            cy.plus(s.times(Fixed::millionths(24_000_000))),
            s.times(Fixed::millionths(32_000_000)),
            s.times(Fixed::millionths(20_000_000)),
            self.colors.hair,
            self.colors.hair_shadow,
            self.colors.hair_highlight,
        );
    }

    /// The pixel `(px, py)` once an eye has been drawn over `acc`: the white, its
    /// outline, the iris at 55% of the height of the eye, the pupil at 60% of
    /// the iris, and two spots of shine.
    pub open spec fn spec_eye(&self, acc: Color, px: int, py: int, cx: Fixed, cy: Fixed, s: Fixed, width: Fixed, height: Fixed, pupil_ox: Fixed, pupil_oy: Fixed) -> Color {
        (EllipseFill { cx: cx.plus(pupil_ox.plus(Fixed::millionths(4_000_000)).times(s)), cy: cy.plus(pupil_oy.plus(Fixed::millionths(4_000_000)).times(s)), rx: s.times(Fixed::millionths(3_000_000)), ry: s.times(Fixed::millionths(3_000_000)), color: self.colors.eye_shine }).spec_shade(
            (EllipseFill { cx: cx.plus(pupil_ox.minus(Fixed::millionths(6_000_000)).times(s)), cy: cy.plus(pupil_oy.minus(Fixed::millionths(6_000_000)).times(s)), rx: s.times(Fixed::millionths(6_000_000)), ry: s.times(Fixed::millionths(6_000_000)), color: self.colors.eye_shine }).spec_shade(
                (EllipseFill { cx: cx.plus(pupil_ox.times(s)), cy: cy.plus(pupil_oy.times(s)), rx: height.times(Fixed::millionths(550_000)).times(Fixed::millionths(600_000)).times(s), ry: height.times(Fixed::millionths(550_000)).times(Fixed::millionths(600_000)).times(s), color: self.colors.eye_pupil }).spec_shade(
                    (EllipseFill { cx: cx.plus(pupil_ox.times(s)), cy: cy.plus(pupil_oy.times(s)), rx: height.times(Fixed::millionths(550_000)).times(s), ry: height.times(Fixed::millionths(550_000)).times(s), color: self.colors.eye_iris }).spec_shade(
                        (EllipseRing {
                            cx: cx,
                            cy: cy,
                            rx: width.times(s),
                            ry: height.times(s),
                            thickness: s.times(Fixed::millionths(2_500_000)),
                            color: self.colors.outline,
                        }).spec_shade(
                            (EllipseFill { cx: cx, cy: cy, rx: width.times(s), ry: height.times(s), color: self.colors.eye_white }).spec_shade(
                                acc,
                                px,
                                py,
                            ),
                            px,
                            py,
                        ),
                        px,
                        py,
                    ),
                    px,
                    py,
                ),
                px,
                py,
            ),
            px,
            py,
        )
    }
#[verifier::rlimit(50)]

    pub fn draw_eye(&self, img: &mut Canvas, cx: Fixed, cy: Fixed, s: Fixed, width: Fixed, height: Fixed, pupil_ox: Fixed, pupil_oy: Fixed)
        ensures
            final(img).spec_width() == old(img).spec_width(),
            final(img).spec_height() == old(img).spec_height(),
            forall|x: int, y: int|
                final(img).contains(x, y) ==> #[trigger] final(img).at(x, y) == self.spec_eye(
                    old(img).at(x, y),
                    x,
                    y,
                    cx,
                    cy,
                    s,
                    width,
                    height,
                    pupil_ox,
                    pupil_oy,
                ),
    {
        smooth_ellipse(img, cx, cy, width.times(s), height.times(s), self.colors.eye_white);
        ellipse_outline(img, cx, cy, width.times(s), height.times(s), s.times(Fixed::millionths(2_500_000)), self.colors.outline);
        smooth_ellipse(img, cx.plus(pupil_ox.times(s)), cy.plus(pupil_oy.times(s)), height.times(Fixed::millionths(550_000)).times(s), height.times(Fixed::millionths(550_000)).times(s), self.colors.eye_iris);
        smooth_ellipse(img, cx.plus(pupil_ox.times(s)), cy.plus(pupil_oy.times(s)), height.times(Fixed::millionths(550_000)).times(Fixed::millionths(600_000)).times(s), height.times(Fixed::millionths(550_000)).times(Fixed::millionths(600_000)).times(s), self.colors.eye_pupil);
        smooth_ellipse(img, cx.plus(pupil_ox.minus(Fixed::millionths(6_000_000)).times(s)), cy.plus(pupil_oy.minus(Fixed::millionths(6_000_000)).times(s)), s.times(Fixed::millionths(6_000_000)), s.times(Fixed::millionths(6_000_000)), self.colors.eye_shine);
        smooth_ellipse(img, cx.plus(pupil_ox.plus(Fixed::millionths(4_000_000)).times(s)), cy.plus(pupil_oy.plus(Fixed::millionths(4_000_000)).times(s)), s.times(Fixed::millionths(3_000_000)), s.times(Fixed::millionths(3_000_000)), self.colors.eye_shine);
    }

    /// The pixel `(px, py)` once the nose has been drawn over `acc`.
    pub open spec fn spec_nose(&self, acc: Color, px: int, py: int, cx: Fixed, cy: Fixed, s: Fixed) -> Color {
        (EllipseFill { cx: cx, cy: cy, rx: s.times(Fixed::millionths(9_000_000)), ry: s.times(Fixed::millionths(6_000_000)), color: self.colors.skin_shadow }).spec_shade(
            acc,
            px,
            py,
        )
    }
#[verifier::rlimit(50)]

    pub fn draw_nose(&self, img: &mut Canvas, cx: Fixed, cy: Fixed, s: Fixed)
        ensures
            final(img).spec_width() == old(img).spec_width(),
            final(img).spec_height() == old(img).spec_height(),
            forall|x: int, y: int|
                final(img).contains(x, y) ==> #[trigger] final(img).at(x, y) == self.spec_nose(
                    old(img).at(x, y),
                    x,
                    y,
                    cx,
                    cy,
                    s,
                ),
    {
        smooth_ellipse(img, cx, cy, s.times(Fixed::millionths(9_000_000)), s.times(Fixed::millionths(6_000_000)), self.colors.skin_shadow);
    }

    /// The pixel `(px, py)` once a smile with teeth has been drawn over `acc`.
    pub open spec fn spec_smile(&self, acc: Color, px: int, py: int, cx: Fixed, cy: Fixed, s: Fixed, width: Fixed, height: Fixed) -> Color {
        (EllipseFill { cx: cx, cy: cy.minus(height.times(Fixed::millionths(250_000)).times(s)), rx: width.times(Fixed::millionths(750_000)).times(s), ry: height.times(Fixed::millionths(400_000)).times(s), color: self.colors.teeth }).spec_shade(
            (EllipseFill { cx: cx, cy: cy, rx: width.times(s), ry: height.times(s), color: self.colors.mouth }).spec_shade(
                (EllipseRing {
                    cx: cx,
                    cy: cy,
                    rx: width.times(s),
                    ry: height.times(s),
                    thickness: s.times(Fixed::millionths(2_000_000)),
                    color: self.colors.outline,
                }).spec_shade(
                    acc,
                    px,
                    py,
                ),
                px,
                py,
            ),
            px,
            py,
        )
    }
#[verifier::rlimit(50)]

    pub fn draw_smile(&self, img: &mut Canvas, cx: Fixed, cy: Fixed, s: Fixed, width: Fixed, height: Fixed)
        ensures
            final(img).spec_width() == old(img).spec_width(),
            final(img).spec_height() == old(img).spec_height(),
            forall|x: int, y: int|
                final(img).contains(x, y) ==> #[trigger] final(img).at(x, y) == self.spec_smile(
                    old(img).at(x, y),
                    x,
                    y,
                    cx,
                    cy,
                    s,
                    width,
                    height,
                ),
    {
        ellipse_outline(img, cx, cy, width.times(s), height.times(s), s.times(Fixed::millionths(2_000_000)), self.colors.outline);
        smooth_ellipse(img, cx, cy, width.times(s), height.times(s), self.colors.mouth);
        smooth_ellipse(img, cx, cy.minus(height.times(Fixed::millionths(250_000)).times(s)), width.times(Fixed::millionths(750_000)).times(s), height.times(Fixed::millionths(400_000)).times(s), self.colors.teeth);
    }

    /// The face with both eyes level, flat eyebrows and a smile.
    pub open spec fn spec_neutral_face(&self, acc: Color, px: int, py: int, cx: Fixed, cy: Fixed, s: Fixed) -> Color {
        self.spec_smile(
            self.spec_nose(
                (Eyebrow {
                    cx: cx.plus(s.times(Fixed::millionths(48_000_000))),
                    cy: cy.plus(s.times(Fixed::millionths(60_000_000).negated())),
                    s,
                    angle: Fixed::millionths(0),
                    thickness: Fixed::millionths(5_500_000),
                    color: self.colors.outline,
                }).spec_drawn(
                    (Eyebrow {
                        cx: cx.plus(s.times(Fixed::millionths(48_000_000).negated())),
                        cy: cy.plus(s.times(Fixed::millionths(60_000_000).negated())),
                        s,
                        angle: Fixed::millionths(0),
                        thickness: Fixed::millionths(5_500_000),
                        color: self.colors.outline,
                    }).spec_drawn(
                        self.spec_eye(
                            self.spec_eye(
                                acc,
                                px,
                                py,
                                cx.plus(s.times(Fixed::millionths(48_000_000).negated())),
                                cy.plus(s.times(Fixed::millionths(18_000_000).negated())),
                                s,
                                Fixed::millionths(26_000_000),
                                Fixed::millionths(32_000_000),
                                Fixed::millionths(0),
                                Fixed::millionths(0),
                            ),
                            px,
                            py,
                            cx.plus(s.times(Fixed::millionths(48_000_000))),
                            cy.plus(s.times(Fixed::millionths(18_000_000).negated())),
                            s,
                            Fixed::millionths(26_000_000),
                            Fixed::millionths(32_000_000),
                            Fixed::millionths(0),
                            Fixed::millionths(0),
                        ),
                        px,
                        py,
                    ),
                    px,
                    py,
                ),
                px,
                py,
                cx,
                cy.plus(s.times(Fixed::millionths(18_000_000))),
                s,
            ),
            px,
            py,
            cx,
            cy.plus(s.times(Fixed::millionths(58_000_000))),
            s,
            Fixed::millionths(32_000_000),
            Fixed::millionths(16_000_000),
        )
    }
#[verifier::rlimit(50)]

    pub fn draw_neutral_face(&self, img: &mut Canvas, cx: Fixed, cy: Fixed, s: Fixed)
        ensures
            final(img).spec_width() == old(img).spec_width(),
            final(img).spec_height() == old(img).spec_height(),
            forall|x: int, y: int|
                final(img).contains(x, y) ==> #[trigger] final(img).at(x, y) == self.spec_neutral_face(
                    old(img).at(x, y),
                    x,
                    y,
                    cx,
                    cy,
                    s,
                ),
    {
        self.draw_eye(img, cx.plus(s.times(Fixed::millionths(48_000_000).negated())), cy.plus(s.times(Fixed::millionths(18_000_000).negated())), s, Fixed::millionths(26_000_000), Fixed::millionths(32_000_000), Fixed::millionths(0), Fixed::millionths(0));
        self.draw_eye(img, cx.plus(s.times(Fixed::millionths(48_000_000))), cy.plus(s.times(Fixed::millionths(18_000_000).negated())), s, Fixed::millionths(26_000_000), Fixed::millionths(32_000_000), Fixed::millionths(0), Fixed::millionths(0));
        draw_eyebrow(img, cx.plus(s.times(Fixed::millionths(48_000_000).negated())), cy.plus(s.times(Fixed::millionths(60_000_000).negated())), s, Fixed::millionths(0), Fixed::millionths(5_500_000), self.colors.outline);
        draw_eyebrow(img, cx.plus(s.times(Fixed::millionths(48_000_000))), cy.plus(s.times(Fixed::millionths(60_000_000).negated())), s, Fixed::millionths(0), Fixed::millionths(5_500_000), self.colors.outline);
        self.draw_nose(img, cx, cy.plus(s.times(Fixed::millionths(18_000_000))), s);
        self.draw_smile(img, cx, cy.plus(s.times(Fixed::millionths(58_000_000))), s, Fixed::millionths(32_000_000), Fixed::millionths(16_000_000));
    }

    /// The face with wide eyes, raised eyebrows and the mouth open in an O.
    pub open spec fn spec_shocked_face(&self, acc: Color, px: int, py: int, cx: Fixed, cy: Fixed, s: Fixed) -> Color {
        (EllipseFill { cx: cx, cy: cy.plus(s.times(Fixed::millionths(50_000_000))), rx: s.times(Fixed::millionths(24_000_000)), ry: s.times(Fixed::millionths(10_000_000)), color: self.colors.teeth }).spec_shade(
            (EllipseFill { cx: cx, cy: cy.plus(s.times(Fixed::millionths(62_000_000))), rx: s.times(Fixed::millionths(32_000_000)), ry: s.times(Fixed::millionths(38_000_000)), color: self.colors.mouth_dark }).spec_shade(
                (EllipseRing {
                    cx: cx,
                    cy: cy.plus(s.times(Fixed::millionths(62_000_000))),
                    rx: s.times(Fixed::millionths(32_000_000)),
                    ry: s.times(Fixed::millionths(38_000_000)),
                    thickness: s.times(Fixed::millionths(3_000_000)),
                    color: self.colors.outline,
                }).spec_shade(
                    self.spec_nose(
                        (Eyebrow {
                            cx: cx.plus(s.times(Fixed::millionths(48_000_000))),
                            cy: cy.plus(s.times(Fixed::millionths(76_000_000).negated())),
                            s,
                            angle: Fixed::millionths(350_000),
                            thickness: Fixed::millionths(5_000_000),
                            color: self.colors.outline,
                        }).spec_drawn(
                            (Eyebrow {
                                cx: cx.plus(s.times(Fixed::millionths(48_000_000).negated())),
                                cy: cy.plus(s.times(Fixed::millionths(76_000_000).negated())),
                                s,
                                angle: Fixed::millionths(350_000).negated(),
                                thickness: Fixed::millionths(5_000_000),
                                color: self.colors.outline,
                            }).spec_drawn(
                                self.spec_eye(
                                    self.spec_eye(
                                        acc,
                                        px,
                                        py,
                                        cx.plus(s.times(Fixed::millionths(48_000_000).negated())),
                                        cy.plus(s.times(Fixed::millionths(18_000_000).negated())),
                                        s,
                                        Fixed::millionths(34_000_000),
                                        Fixed::millionths(42_000_000),
                                        Fixed::millionths(0),
                                        Fixed::millionths(4_000_000).negated(),
                                    ),
                                    px,
                                    py,
                                    cx.plus(s.times(Fixed::millionths(48_000_000))),
                                    cy.plus(s.times(Fixed::millionths(18_000_000).negated())),
                                    s,
                                    Fixed::millionths(34_000_000),
                                    Fixed::millionths(42_000_000),
                                    Fixed::millionths(0),
                                    Fixed::millionths(4_000_000).negated(),
                                ),
                                px,
                                py,
                            ),
                            px,
                            py,
                        ),
                        px,
                        py,
                        cx,
                        cy.plus(s.times(Fixed::millionths(18_000_000))),
                        s,
                    ),
                    px,
                    py,
                ),
                px,
                py,
            ),
            px,
            py,
        )
    }
#[verifier::rlimit(50)]

    pub fn draw_shocked_face(&self, img: &mut Canvas, cx: Fixed, cy: Fixed, s: Fixed)
        ensures
            final(img).spec_width() == old(img).spec_width(),
            final(img).spec_height() == old(img).spec_height(),
            forall|x: int, y: int|
                final(img).contains(x, y) ==> #[trigger] final(img).at(x, y) == self.spec_shocked_face(
                    old(img).at(x, y),
                    x,
                    y,
                    cx,
                    cy,
                    s,
                ),
    {
        self.draw_eye(img, cx.plus(s.times(Fixed::millionths(48_000_000).negated())), cy.plus(s.times(Fixed::millionths(18_000_000).negated())), s, Fixed::millionths(34_000_000), Fixed::millionths(42_000_000), Fixed::millionths(0), Fixed::millionths(4_000_000).negated());
        self.draw_eye(img, cx.plus(s.times(Fixed::millionths(48_000_000))), cy.plus(s.times(Fixed::millionths(18_000_000).negated())), s, Fixed::millionths(34_000_000), Fixed::millionths(42_000_000), Fixed::millionths(0), Fixed::millionths(4_000_000).negated());
        draw_eyebrow(img, cx.plus(s.times(Fixed::millionths(48_000_000).negated())), cy.plus(s.times(Fixed::millionths(76_000_000).negated())), s, Fixed::millionths(350_000).negated(), Fixed::millionths(5_000_000), self.colors.outline);
        draw_eyebrow(img, cx.plus(s.times(Fixed::millionths(48_000_000))), cy.plus(s.times(Fixed::millionths(76_000_000).negated())), s, Fixed::millionths(350_000), Fixed::millionths(5_000_000), self.colors.outline);
        self.draw_nose(img, cx, cy.plus(s.times(Fixed::millionths(18_000_000))), s);
        ellipse_outline(img, cx, cy.plus(s.times(Fixed::millionths(62_000_000))), s.times(Fixed::millionths(32_000_000)), s.times(Fixed::millionths(38_000_000)), s.times(Fixed::millionths(3_000_000)), self.colors.outline);
        smooth_ellipse(img, cx, cy.plus(s.times(Fixed::millionths(62_000_000))), s.times(Fixed::millionths(32_000_000)), s.times(Fixed::millionths(38_000_000)), self.colors.mouth_dark);
        smooth_ellipse(img, cx, cy.plus(s.times(Fixed::millionths(50_000_000))), s.times(Fixed::millionths(24_000_000)), s.times(Fixed::millionths(10_000_000)), self.colors.teeth);
    }

    /// The face with narrowed eyes, furrowed eyebrows and a flat mouth.
    pub open spec fn spec_serious_face(&self, acc: Color, px: int, py: int, cx: Fixed, cy: Fixed, s: Fixed) -> Color {
        (EllipseFill { cx: cx, cy: cy.plus(s.times(Fixed::millionths(58_000_000))), rx: s.times(Fixed::millionths(28_000_000)), ry: s.times(Fixed::millionths(5_000_000)), color: self.colors.outline }).spec_shade(
            self.spec_nose(
                (Eyebrow {
                    cx: cx.plus(s.times(Fixed::millionths(48_000_000))),
                    cy: cy.plus(s.times(Fixed::millionths(50_000_000).negated())),
                    s,
                    angle: Fixed::millionths(450_000).negated(),
                    thickness: Fixed::millionths(6_500_000),
                    color: self.colors.outline,
                }).spec_drawn(
                    (Eyebrow {
                        cx: cx.plus(s.times(Fixed::millionths(48_000_000).negated())),
                        cy: cy.plus(s.times(Fixed::millionths(50_000_000).negated())),
                        s,
                        angle: Fixed::millionths(450_000),
                        thickness: Fixed::millionths(6_500_000),
                        color: self.colors.outline,
                    }).spec_drawn(
                        self.spec_eye(
                            self.spec_eye(
                                acc,
                                px,
                                py,
                                cx.plus(s.times(Fixed::millionths(48_000_000).negated())),
                                cy.plus(s.times(Fixed::millionths(18_000_000).negated())),
                                s,
                                Fixed::millionths(30_000_000),
                                Fixed::millionths(20_000_000),
                                Fixed::millionths(0),
                                Fixed::millionths(0),
                            ),
                            px,
                            py,
                            cx.plus(s.times(Fixed::millionths(48_000_000))),
                            cy.plus(s.times(Fixed::millionths(18_000_000).negated())),
                            s,
                            Fixed::millionths(30_000_000),
                            Fixed::millionths(20_000_000),
                            Fixed::millionths(0),
                            Fixed::millionths(0),
                        ),
                        px,
                        py,
                    ),
                    px,
                    py,
                ),
                px,
                py,
                cx,
                cy.plus(s.times(Fixed::millionths(18_000_000))),
                s,
            ),
            px,
            py,
        )
    }
#[verifier::rlimit(50)]

    pub fn draw_serious_face(&self, img: &mut Canvas, cx: Fixed, cy: Fixed, s: Fixed)
        ensures
            final(img).spec_width() == old(img).spec_width(),
            final(img).spec_height() == old(img).spec_height(),
            forall|x: int, y: int|
                final(img).contains(x, y) ==> #[trigger] final(img).at(x, y) == self.spec_serious_face(
                    old(img).at(x, y),
                    x,
                    y,
                    cx,
                    cy,
                    s,
                ),
    {
        self.draw_eye(img, cx.plus(s.times(Fixed::millionths(48_000_000).negated())), cy.plus(s.times(Fixed::millionths(18_000_000).negated())), s, Fixed::millionths(30_000_000), Fixed::millionths(20_000_000), Fixed::millionths(0), Fixed::millionths(0));
        self.draw_eye(img, cx.plus(s.times(Fixed::millionths(48_000_000))), cy.plus(s.times(Fixed::millionths(18_000_000).negated())), s, Fixed::millionths(30_000_000), Fixed::millionths(20_000_000), Fixed::millionths(0), Fixed::millionths(0));
        draw_eyebrow(img, cx.plus(s.times(Fixed::millionths(48_000_000).negated())), cy.plus(s.times(Fixed::millionths(50_000_000).negated())), s, Fixed::millionths(450_000), Fixed::millionths(6_500_000), self.colors.outline);
        draw_eyebrow(img, cx.plus(s.times(Fixed::millionths(48_000_000))), cy.plus(s.times(Fixed::millionths(50_000_000).negated())), s, Fixed::millionths(450_000).negated(), Fixed::millionths(6_500_000), self.colors.outline);
        self.draw_nose(img, cx, cy.plus(s.times(Fixed::millionths(18_000_000))), s);
        smooth_ellipse(img, cx, cy.plus(s.times(Fixed::millionths(58_000_000))), s.times(Fixed::millionths(28_000_000)), s.times(Fixed::millionths(5_000_000)), self.colors.outline);
    }

    /// The face with sly eyes that look to the side, uneven eyebrows and a smirk.
    pub open spec fn spec_mischievous_face(&self, acc: Color, px: int, py: int, cx: Fixed, cy: Fixed, s: Fixed) -> Color {
        (EllipseFill { cx: cx.plus(s.times(Fixed::millionths(22_000_000))), cy: cy.plus(s.times(Fixed::millionths(54_000_000))), rx: s.times(Fixed::millionths(14_000_000)), ry: s.times(Fixed::millionths(7_000_000)), color: self.colors.teeth }).spec_shade(
            (EllipseRing {
                cx: cx.plus(s.times(Fixed::millionths(10_000_000))),
                cy: cy.plus(s.times(Fixed::millionths(58_000_000))),
                rx: s.times(Fixed::millionths(34_000_000)),
                ry: s.times(Fixed::millionths(14_000_000)),
                thickness: s.times(Fixed::millionths(2_000_000)),
                color: self.colors.outline,
            }).spec_shade(
                (EllipseFill { cx: cx.plus(s.times(Fixed::millionths(10_000_000))), cy: cy.plus(s.times(Fixed::millionths(58_000_000))), rx: s.times(Fixed::millionths(34_000_000)), ry: s.times(Fixed::millionths(14_000_000)), color: self.colors.mouth }).spec_shade(
                    self.spec_nose(
                        (Eyebrow {
                            cx: cx.plus(s.times(Fixed::millionths(48_000_000))),
                            cy: cy.plus(s.times(Fixed::millionths(63_000_000).negated())),
                            s,
                            angle: Fixed::millionths(300_000).negated(),
                            thickness: Fixed::millionths(5_000_000),
                            color: self.colors.outline,
                        }).spec_drawn(
                            (Eyebrow {
                                cx: cx.plus(s.times(Fixed::millionths(48_000_000).negated())),
                                cy: cy.plus(s.times(Fixed::millionths(56_000_000).negated())),
                                s,
                                angle: Fixed::millionths(250_000),
                                thickness: Fixed::millionths(5_000_000),
                                color: self.colors.outline,
                            }).spec_drawn(
                                self.spec_eye(
                                    self.spec_eye(
                                        acc,
                                        px,
                                        py,
                                        cx.plus(s.times(Fixed::millionths(48_000_000).negated())),
                                        cy.plus(s.times(Fixed::millionths(18_000_000).negated())),
                                        s,
                                        Fixed::millionths(26_000_000),
                                        Fixed::millionths(24_000_000),
                                        Fixed::millionths(5_000_000),
                                        Fixed::millionths(0),
                                    ),
                                    px,
                                    py,
                                    cx.plus(s.times(Fixed::millionths(48_000_000))),
                                    cy.plus(s.times(Fixed::millionths(18_000_000).negated())),
                                    s,
                                    Fixed::millionths(26_000_000),
                                    Fixed::millionths(24_000_000),
                                    Fixed::millionths(5_000_000),
                                    Fixed::millionths(0),
                                ),
                                px,
                                py,
                            ),
                            px,
                            py,
                        ),
                        px,
                        py,
                        cx,
                        cy.plus(s.times(Fixed::millionths(18_000_000))),
                        s,
                    ),
                    px,
                    py,
                ),
                px,
                py,
            ),
            px,
            py,
        )
    }
#[verifier::rlimit(50)]

    pub fn draw_mischievous_face(&self, img: &mut Canvas, cx: Fixed, cy: Fixed, s: Fixed)
        ensures
            final(img).spec_width() == old(img).spec_width(),
            final(img).spec_height() == old(img).spec_height(),
            forall|x: int, y: int|
                final(img).contains(x, y) ==> #[trigger] final(img).at(x, y) == self.spec_mischievous_face(
                    old(img).at(x, y),
                    x,
                    y,
                    cx,
                    cy,
                    s,
                ),
    {
        self.draw_eye(img, cx.plus(s.times(Fixed::millionths(48_000_000).negated())), cy.plus(s.times(Fixed::millionths(18_000_000).negated())), s, Fixed::millionths(26_000_000), Fixed::millionths(24_000_000), Fixed::millionths(5_000_000), Fixed::millionths(0));
        self.draw_eye(img, cx.plus(s.times(Fixed::millionths(48_000_000))), cy.plus(s.times(Fixed::millionths(18_000_000).negated())), s, Fixed::millionths(26_000_000), Fixed::millionths(24_000_000), Fixed::millionths(5_000_000), Fixed::millionths(0));
        draw_eyebrow(img, cx.plus(s.times(Fixed::millionths(48_000_000).negated())), cy.plus(s.times(Fixed::millionths(56_000_000).negated())), s, Fixed::millionths(250_000), Fixed::millionths(5_000_000), self.colors.outline);
        draw_eyebrow(img, cx.plus(s.times(Fixed::millionths(48_000_000))), cy.plus(s.times(Fixed::millionths(63_000_000).negated())), s, Fixed::millionths(300_000).negated(), Fixed::millionths(5_000_000), self.colors.outline);
        self.draw_nose(img, cx, cy.plus(s.times(Fixed::millionths(18_000_000))), s);
        smooth_ellipse(img, cx.plus(s.times(Fixed::millionths(10_000_000))), cy.plus(s.times(Fixed::millionths(58_000_000))), s.times(Fixed::millionths(34_000_000)), s.times(Fixed::millionths(14_000_000)), self.colors.mouth);
        ellipse_outline(img, cx.plus(s.times(Fixed::millionths(10_000_000))), cy.plus(s.times(Fixed::millionths(58_000_000))), s.times(Fixed::millionths(34_000_000)), s.times(Fixed::millionths(14_000_000)), s.times(Fixed::millionths(2_000_000)), self.colors.outline);
        smooth_ellipse(img, cx.plus(s.times(Fixed::millionths(22_000_000))), cy.plus(s.times(Fixed::millionths(54_000_000))), s.times(Fixed::millionths(14_000_000)), s.times(Fixed::millionths(7_000_000)), self.colors.teeth);
    }

    /// One huge eye with rings in it, `side` of the middle of the face.
    pub open spec fn spec_spiral_left(&self, acc: Color, px: int, py: int, cx: Fixed, cy: Fixed, s: Fixed) -> Color {
        (EllipseFill { cx: cx.plus(s.times(Fixed::millionths(48_000_000).negated())), cy: cy.plus(s.times(Fixed::millionths(18_000_000).negated())), rx: s.times(Fixed::millionths(5_000_000)), ry: s.times(Fixed::millionths(5_000_000)), color: self.colors.eye_white }).spec_shade(
            (EllipseFill { cx: cx.plus(s.times(Fixed::millionths(48_000_000).negated())), cy: cy.plus(s.times(Fixed::millionths(18_000_000).negated())), rx: s.times(Fixed::millionths(10_000_000)), ry: s.times(Fixed::millionths(10_000_000)), color: self.colors.eye_pupil }).spec_shade(
                (EllipseFill { cx: cx.plus(s.times(Fixed::millionths(48_000_000).negated())), cy: cy.plus(s.times(Fixed::millionths(18_000_000).negated())), rx: s.times(Fixed::millionths(16_000_000)), ry: s.times(Fixed::millionths(16_000_000)), color: self.colors.eye_white }).spec_shade(
                    (EllipseFill { cx: cx.plus(s.times(Fixed::millionths(48_000_000).negated())), cy: cy.plus(s.times(Fixed::millionths(18_000_000).negated())), rx: s.times(Fixed::millionths(22_000_000)), ry: s.times(Fixed::millionths(22_000_000)), color: self.colors.eye_pupil }).spec_shade(
                        (EllipseRing {
                            cx: cx.plus(s.times(Fixed::millionths(48_000_000).negated())),
                            cy: cy.plus(s.times(Fixed::millionths(18_000_000).negated())),
                            rx: s.times(Fixed::millionths(38_000_000)),
                            ry: s.times(Fixed::millionths(48_000_000)),
                            thickness: s.times(Fixed::millionths(2_500_000)),
                            color: self.colors.outline,
                        }).spec_shade(
                            (EllipseFill { cx: cx.plus(s.times(Fixed::millionths(48_000_000).negated())), cy: cy.plus(s.times(Fixed::millionths(18_000_000).negated())), rx: s.times(Fixed::millionths(38_000_000)), ry: s.times(Fixed::millionths(48_000_000)), color: self.colors.eye_white }).spec_shade(
                                acc,
                                px,
                                py,
                            ),
                            px,
                            py,
                        ),
                        px,
                        py,
                    ),
                    px,
                    py,
                ),
                px,
                py,
            ),
            px,
            py,
        )
    }
#[verifier::rlimit(50)]

    pub fn draw_spiral_left(&self, img: &mut Canvas, cx: Fixed, cy: Fixed, s: Fixed)
        ensures
            final(img).spec_width() == old(img).spec_width(),
            final(img).spec_height() == old(img).spec_height(),
            forall|x: int, y: int|
                final(img).contains(x, y) ==> #[trigger] final(img).at(x, y) == self.spec_spiral_left(
                    old(img).at(x, y),
                    x,
                    y,
                    cx,
                    cy,
                    s,
                ),
    {
        smooth_ellipse(img, cx.plus(s.times(Fixed::millionths(48_000_000).negated())), cy.plus(s.times(Fixed::millionths(18_000_000).negated())), s.times(Fixed::millionths(38_000_000)), s.times(Fixed::millionths(48_000_000)), self.colors.eye_white);
        ellipse_outline(img, cx.plus(s.times(Fixed::millionths(48_000_000).negated())), cy.plus(s.times(Fixed::millionths(18_000_000).negated())), s.times(Fixed::millionths(38_000_000)), s.times(Fixed::millionths(48_000_000)), s.times(Fixed::millionths(2_500_000)), self.colors.outline);
        smooth_ellipse(img, cx.plus(s.times(Fixed::millionths(48_000_000).negated())), cy.plus(s.times(Fixed::millionths(18_000_000).negated())), s.times(Fixed::millionths(22_000_000)), s.times(Fixed::millionths(22_000_000)), self.colors.eye_pupil);
        smooth_ellipse(img, cx.plus(s.times(Fixed::millionths(48_000_000).negated())), cy.plus(s.times(Fixed::millionths(18_000_000).negated())), s.times(Fixed::millionths(16_000_000)), s.times(Fixed::millionths(16_000_000)), self.colors.eye_white);
        smooth_ellipse(img, cx.plus(s.times(Fixed::millionths(48_000_000).negated())), cy.plus(s.times(Fixed::millionths(18_000_000).negated())), s.times(Fixed::millionths(10_000_000)), s.times(Fixed::millionths(10_000_000)), self.colors.eye_pupil);
        smooth_ellipse(img, cx.plus(s.times(Fixed::millionths(48_000_000).negated())), cy.plus(s.times(Fixed::millionths(18_000_000).negated())), s.times(Fixed::millionths(5_000_000)), s.times(Fixed::millionths(5_000_000)), self.colors.eye_white);
    }

    /// The other huge eye with rings in it.
    pub open spec fn spec_spiral_right(&self, acc: Color, px: int, py: int, cx: Fixed, cy: Fixed, s: Fixed) -> Color {
        (EllipseFill { cx: cx.plus(s.times(Fixed::millionths(48_000_000))), cy: cy.plus(s.times(Fixed::millionths(18_000_000).negated())), rx: s.times(Fixed::millionths(5_000_000)), ry: s.times(Fixed::millionths(5_000_000)), color: self.colors.eye_white }).spec_shade(
            (EllipseFill { cx: cx.plus(s.times(Fixed::millionths(48_000_000))), cy: cy.plus(s.times(Fixed::millionths(18_000_000).negated())), rx: s.times(Fixed::millionths(10_000_000)), ry: s.times(Fixed::millionths(10_000_000)), color: self.colors.eye_pupil }).spec_shade(
                (EllipseFill { cx: cx.plus(s.times(Fixed::millionths(48_000_000))), cy: cy.plus(s.times(Fixed::millionths(18_000_000).negated())), rx: s.times(Fixed::millionths(16_000_000)), ry: s.times(Fixed::millionths(16_000_000)), color: self.colors.eye_white }).spec_shade(
                    (EllipseFill { cx: cx.plus(s.times(Fixed::millionths(48_000_000))), cy: cy.plus(s.times(Fixed::millionths(18_000_000).negated())), rx: s.times(Fixed::millionths(22_000_000)), ry: s.times(Fixed::millionths(22_000_000)), color: self.colors.eye_pupil }).spec_shade(
                        (EllipseRing {
                            cx: cx.plus(s.times(Fixed::millionths(48_000_000))),
                            cy: cy.plus(s.times(Fixed::millionths(18_000_000).negated())),
                            rx: s.times(Fixed::millionths(38_000_000)),
                            ry: s.times(Fixed::millionths(48_000_000)),
                            thickness: s.times(Fixed::millionths(2_500_000)),
                            color: self.colors.outline,
                        }).spec_shade(
                            (EllipseFill { cx: cx.plus(s.times(Fixed::millionths(48_000_000))), cy: cy.plus(s.times(Fixed::millionths(18_000_000).negated())), rx: s.times(Fixed::millionths(38_000_000)), ry: s.times(Fixed::millionths(48_000_000)), color: self.colors.eye_white }).spec_shade(
                                acc,
                                px,
                                py,
                            ),
                            px,
                            py,
                        ),
                        px,
                        py,
                    ),
                    px,
                    py,
                ),
                px,
                py,
            ),
            px,
            py,
        )
    }
#[verifier::rlimit(50)]

    pub fn draw_spiral_right(&self, img: &mut Canvas, cx: Fixed, cy: Fixed, s: Fixed)
        ensures
            final(img).spec_width() == old(img).spec_width(),
            final(img).spec_height() == old(img).spec_height(),
            forall|x: int, y: int|
                final(img).contains(x, y) ==> #[trigger] final(img).at(x, y) == self.spec_spiral_right(
                    old(img).at(x, y),
                    x,
                    y,
                    cx,
                    cy,
                    s,
                ),
    {
        smooth_ellipse(img, cx.plus(s.times(Fixed::millionths(48_000_000))), cy.plus(s.times(Fixed::millionths(18_000_000).negated())), s.times(Fixed::millionths(38_000_000)), s.times(Fixed::millionths(48_000_000)), self.colors.eye_white);
        ellipse_outline(img, cx.plus(s.times(Fixed::millionths(48_000_000))), cy.plus(s.times(Fixed::millionths(18_000_000).negated())), s.times(Fixed::millionths(38_000_000)), s.times(Fixed::millionths(48_000_000)), s.times(Fixed::millionths(2_500_000)), self.colors.outline);
        smooth_ellipse(img, cx.plus(s.times(Fixed::millionths(48_000_000))), cy.plus(s.times(Fixed::millionths(18_000_000).negated())), s.times(Fixed::millionths(22_000_000)), s.times(Fixed::millionths(22_000_000)), self.colors.eye_pupil);
        smooth_ellipse(img, cx.plus(s.times(Fixed::millionths(48_000_000))), cy.plus(s.times(Fixed::millionths(18_000_000).negated())), s.times(Fixed::millionths(16_000_000)), s.times(Fixed::millionths(16_000_000)), self.colors.eye_white);
        smooth_ellipse(img, cx.plus(s.times(Fixed::millionths(48_000_000))), cy.plus(s.times(Fixed::millionths(18_000_000).negated())), s.times(Fixed::millionths(10_000_000)), s.times(Fixed::millionths(10_000_000)), self.colors.eye_pupil);
        smooth_ellipse(img, cx.plus(s.times(Fixed::millionths(48_000_000))), cy.plus(s.times(Fixed::millionths(18_000_000).negated())), s.times(Fixed::millionths(5_000_000)), s.times(Fixed::millionths(5_000_000)), self.colors.eye_white);
    }

    /// The face with two huge ringed eyes, eyebrows raised high and the mouth
    /// wide open with teeth and tongue.
    pub open spec fn spec_mind_blown_face(&self, acc: Color, px: int, py: int, cx: Fixed, cy: Fixed, s: Fixed) -> Color {
        (EllipseFill { cx: cx, cy: cy.plus(s.times(Fixed::millionths(82_000_000))), rx: s.times(Fixed::millionths(24_000_000)), ry: s.times(Fixed::millionths(18_000_000)), color: self.colors.tongue }).spec_shade(
            (EllipseFill { cx: cx, cy: cy.plus(s.times(Fixed::millionths(52_000_000))), rx: s.times(Fixed::millionths(32_000_000)), ry: s.times(Fixed::millionths(12_000_000)), color: self.colors.teeth }).spec_shade(
                (EllipseFill { cx: cx, cy: cy.plus(s.times(Fixed::millionths(68_000_000))), rx: s.times(Fixed::millionths(42_000_000)), ry: s.times(Fixed::millionths(48_000_000)), color: self.colors.mouth_dark }).spec_shade(
                    (EllipseRing {
                        cx: cx,
                        cy: cy.plus(s.times(Fixed::millionths(68_000_000))),
                        rx: s.times(Fixed::millionths(42_000_000)),
                        ry: s.times(Fixed::millionths(48_000_000)),
                        thickness: s.times(Fixed::millionths(3_000_000)),
                        color: self.colors.outline,
                    }).spec_shade(
                        self.spec_nose(
                            (Eyebrow {
                                cx: cx.plus(s.times(Fixed::millionths(48_000_000))),
                                cy: cy.plus(s.times(Fixed::millionths(83_000_000).negated())),
                                s,
                                angle: Fixed::millionths(400_000),
                                thickness: Fixed::millionths(5_000_000),
                                color: self.colors.outline,
                            }).spec_drawn(
                                (Eyebrow {
                                    cx: cx.plus(s.times(Fixed::millionths(48_000_000).negated())),
                                    cy: cy.plus(s.times(Fixed::millionths(83_000_000).negated())),
                                    s,
                                    angle: Fixed::millionths(400_000).negated(),
                                    thickness: Fixed::millionths(5_000_000),
                                    color: self.colors.outline,
                                }).spec_drawn(
                                    self.spec_spiral_right(
                                        self.spec_spiral_left(
                                            acc,
                                            px,
                                            py,
                                            cx,
                                            cy,
                                            s,
                                        ),
                                        px,
                                        py,
                                        cx,
                                        cy,
                                        s,
                                    ),
                                    px,
                                    py,
                                ),
                                px,
                                py,
                            ),
                            px,
                            py,
                            cx,
                            cy.plus(s.times(Fixed::millionths(18_000_000))),
                            s,
                        ),
                        px,
                        py,
                    ),
                    px,
                    py,
                ),
                px,
                py,
            ),
            px,
            py,
        )
    }
#[verifier::rlimit(50)]

    pub fn draw_mind_blown_face(&self, img: &mut Canvas, cx: Fixed, cy: Fixed, s: Fixed)
        ensures
            final(img).spec_width() == old(img).spec_width(),
            final(img).spec_height() == old(img).spec_height(),
            forall|x: int, y: int|
                final(img).contains(x, y) ==> #[trigger] final(img).at(x, y) == self.spec_mind_blown_face(
                    old(img).at(x, y),
                    x,
                    y,
                    cx,
                    cy,
                    s,
                ),
    {
        self.draw_spiral_left(img, cx, cy, s);
        self.draw_spiral_right(img, cx, cy, s);
        draw_eyebrow(img, cx.plus(s.times(Fixed::millionths(48_000_000).negated())), cy.plus(s.times(Fixed::millionths(83_000_000).negated())), s, Fixed::millionths(400_000).negated(), Fixed::millionths(5_000_000), self.colors.outline);
        draw_eyebrow(img, cx.plus(s.times(Fixed::millionths(48_000_000))), cy.plus(s.times(Fixed::millionths(83_000_000).negated())), s, Fixed::millionths(400_000), Fixed::millionths(5_000_000), self.colors.outline);
        self.draw_nose(img, cx, cy.plus(s.times(Fixed::millionths(18_000_000))), s);
        ellipse_outline(img, cx, cy.plus(s.times(Fixed::millionths(68_000_000))), s.times(Fixed::millionths(42_000_000)), s.times(Fixed::millionths(48_000_000)), s.times(Fixed::millionths(3_000_000)), self.colors.outline);
        smooth_ellipse(img, cx, cy.plus(s.times(Fixed::millionths(68_000_000))), s.times(Fixed::millionths(42_000_000)), s.times(Fixed::millionths(48_000_000)), self.colors.mouth_dark);
        smooth_ellipse(img, cx, cy.plus(s.times(Fixed::millionths(52_000_000))), s.times(Fixed::millionths(32_000_000)), s.times(Fixed::millionths(12_000_000)), self.colors.teeth);
        smooth_ellipse(img, cx, cy.plus(s.times(Fixed::millionths(82_000_000))), s.times(Fixed::millionths(24_000_000)), s.times(Fixed::millionths(18_000_000)), self.colors.tongue);
    }

    /// The face with eyes that look to the side, eyebrows a little raised and a
    /// small pursed mouth.
    pub open spec fn spec_whispering_face(&self, acc: Color, px: int, py: int, cx: Fixed, cy: Fixed, s: Fixed) -> Color {
        (EllipseRing {
            cx: cx,
            cy: cy.plus(s.times(Fixed::millionths(58_000_000))),
            rx: s.times(Fixed::millionths(14_000_000)),
            ry: s.times(Fixed::millionths(12_000_000)),
            thickness: s.times(Fixed::millionths(2_000_000)),
            color: self.colors.outline,
        }).spec_shade(
            (EllipseFill { cx: cx, cy: cy.plus(s.times(Fixed::millionths(58_000_000))), rx: s.times(Fixed::millionths(14_000_000)), ry: s.times(Fixed::millionths(12_000_000)), color: self.colors.mouth }).spec_shade(
                self.spec_nose(
                    (Eyebrow {
                        cx: cx.plus(s.times(Fixed::millionths(48_000_000))),
                        cy: cy.plus(s.times(Fixed::millionths(58_000_000).negated())),
                        s,
                        angle: Fixed::millionths(120_000),
                        thickness: Fixed::millionths(5_000_000),
                        color: self.colors.outline,
                    }).spec_drawn(
                        (Eyebrow {
                            cx: cx.plus(s.times(Fixed::millionths(48_000_000).negated())),
                            cy: cy.plus(s.times(Fixed::millionths(58_000_000).negated())),
                            s,
                            angle: Fixed::millionths(120_000).negated(),
                            thickness: Fixed::millionths(5_000_000),
                            color: self.colors.outline,
                        }).spec_drawn(
                            self.spec_eye(
                                self.spec_eye(
                                    acc,
                                    px,
                                    py,
                                    cx.plus(s.times(Fixed::millionths(48_000_000).negated())),
                                    cy.plus(s.times(Fixed::millionths(18_000_000).negated())),
                                    s,
                                    Fixed::millionths(24_000_000),
                                    Fixed::millionths(28_000_000),
                                    Fixed::millionths(9_000_000),
                                    Fixed::millionths(0),
                                ),
                                px,
                                py,
                                cx.plus(s.times(Fixed::millionths(48_000_000))),
                                cy.plus(s.times(Fixed::millionths(18_000_000).negated())),
                                s,
                                Fixed::millionths(24_000_000),
                                Fixed::millionths(28_000_000),
                                Fixed::millionths(9_000_000),
                                Fixed::millionths(0),
                            ),
                            px,
                            py,
                        ),
                        px,
                        py,
                    ),
                    px,
                    py,
                    cx,
                    cy.plus(s.times(Fixed::millionths(18_000_000))),
                    s,
                ),
                px,
                py,
            ),
            px,
            py,
        )
    }
#[verifier::rlimit(50)]

    pub fn draw_whispering_face(&self, img: &mut Canvas, cx: Fixed, cy: Fixed, s: Fixed)
        ensures
            final(img).spec_width() == old(img).spec_width(),
            final(img).spec_height() == old(img).spec_height(),
            forall|x: int, y: int|
                final(img).contains(x, y) ==> #[trigger] final(img).at(x, y) == self.spec_whispering_face(
                    old(img).at(x, y),
                    x,
                    y,
                    cx,
                    cy,
                    s,
                ),
    {
        self.draw_eye(img, cx.plus(s.times(Fixed::millionths(48_000_000).negated())), cy.plus(s.times(Fixed::millionths(18_000_000).negated())), s, Fixed::millionths(24_000_000), Fixed::millionths(28_000_000), Fixed::millionths(9_000_000), Fixed::millionths(0));
        self.draw_eye(img, cx.plus(s.times(Fixed::millionths(48_000_000))), cy.plus(s.times(Fixed::millionths(18_000_000).negated())), s, Fixed::millionths(24_000_000), Fixed::millionths(28_000_000), Fixed::millionths(9_000_000), Fixed::millionths(0));
        draw_eyebrow(img, cx.plus(s.times(Fixed::millionths(48_000_000).negated())), cy.plus(s.times(Fixed::millionths(58_000_000).negated())), s, Fixed::millionths(120_000).negated(), Fixed::millionths(5_000_000), self.colors.outline);
        draw_eyebrow(img, cx.plus(s.times(Fixed::millionths(48_000_000))), cy.plus(s.times(Fixed::millionths(58_000_000).negated())), s, Fixed::millionths(120_000), Fixed::millionths(5_000_000), self.colors.outline);
        self.draw_nose(img, cx, cy.plus(s.times(Fixed::millionths(18_000_000))), s);
        smooth_ellipse(img, cx, cy.plus(s.times(Fixed::millionths(58_000_000))), s.times(Fixed::millionths(14_000_000)), s.times(Fixed::millionths(12_000_000)), self.colors.mouth);
        ellipse_outline(img, cx, cy.plus(s.times(Fixed::millionths(58_000_000))), s.times(Fixed::millionths(14_000_000)), s.times(Fixed::millionths(12_000_000)), s.times(Fixed::millionths(2_000_000)), self.colors.outline);
    }

    /// The blush on both cheeks.
    pub open spec fn spec_blush(&self, acc: Color, px: int, py: int, cx: Fixed, cy: Fixed, s: Fixed) -> Color {
        (EllipseFill { cx: cx.plus(s.times(Fixed::millionths(58_000_000))), cy: cy.plus(s.times(Fixed::millionths(32_000_000))), rx: s.times(Fixed::millionths(28_000_000)), ry: s.times(Fixed::millionths(16_000_000)), color: self.colors.blush }).spec_shade(
            (EllipseFill { cx: cx.plus(s.times(Fixed::millionths(58_000_000).negated())), cy: cy.plus(s.times(Fixed::millionths(32_000_000))), rx: s.times(Fixed::millionths(28_000_000)), ry: s.times(Fixed::millionths(16_000_000)), color: self.colors.blush }).spec_shade(
                acc,
                px,
                py,
            ),
            px,
            py,
        )
    }
#[verifier::rlimit(50)]

    pub fn draw_blush(&self, img: &mut Canvas, cx: Fixed, cy: Fixed, s: Fixed)
        ensures
            final(img).spec_width() == old(img).spec_width(),
            final(img).spec_height() == old(img).spec_height(),
            forall|x: int, y: int|
                final(img).contains(x, y) ==> #[trigger] final(img).at(x, y) == self.spec_blush(
                    old(img).at(x, y),
                    x,
                    y,
                    cx,
                    cy,
                    s,
                ),
    {
        smooth_ellipse(img, cx.plus(s.times(Fixed::millionths(58_000_000).negated())), cy.plus(s.times(Fixed::millionths(32_000_000))), s.times(Fixed::millionths(28_000_000)), s.times(Fixed::millionths(16_000_000)), self.colors.blush);
        smooth_ellipse(img, cx.plus(s.times(Fixed::millionths(58_000_000))), cy.plus(s.times(Fixed::millionths(32_000_000))), s.times(Fixed::millionths(28_000_000)), s.times(Fixed::millionths(16_000_000)), self.colors.blush);
    }

    /// The pixel `(px, py)` once the face has been drawn over `acc`: the
    /// blush, then the features of the expression.
    pub open spec fn spec_face(
        &self,
        acc: Color,
        px: int,
        py: int,
        cx: Fixed,
        cy: Fixed,
        s: Fixed,
        expression: Expression,
    ) -> Color {
        match expression {
            Expression::Neutral => self.spec_neutral_face(
                self.spec_blush(acc, px, py, cx, cy, s),
                px,
                py,
                cx,
                cy,
                s,
            ),
            Expression::Shocked => self.spec_shocked_face(
                self.spec_blush(acc, px, py, cx, cy, s),
                px,
                py,
                cx,
                cy,
                s,
            ),
            Expression::Serious => self.spec_serious_face(
                self.spec_blush(acc, px, py, cx, cy, s),
                px,
                py,
                cx,
                cy,
                s,
            ),
            Expression::Mischievous => self.spec_mischievous_face(
                self.spec_blush(acc, px, py, cx, cy, s),
                px,
                py,
                cx,
                cy,
                s,
            ),
            Expression::MindBlown => self.spec_mind_blown_face(
                self.spec_blush(acc, px, py, cx, cy, s),
                px,
                py,
                cx,
                cy,
                s,
            ),
            Expression::Whispering => self.spec_whispering_face(
                self.spec_blush(acc, px, py, cx, cy, s),
                px,
                py,
                cx,
                cy,
                s,
            ),
        }
    }
#[verifier::rlimit(50)]

    pub fn draw_face(&self, img: &mut Canvas, cx: Fixed, cy: Fixed, s: Fixed, expression: Expression)
        ensures
            final(img).spec_width() == old(img).spec_width(),
            final(img).spec_height() == old(img).spec_height(),
            forall|x: int, y: int|
                final(img).contains(x, y) ==> #[trigger] final(img).at(x, y) == self.spec_face(
                    old(img).at(x, y),
                    x,
                    y,
                    cx,
                    cy,
                    s,
                    expression,
                ),
    {
        self.draw_blush(img, cx, cy, s);
        match expression {
            Expression::Neutral => self.draw_neutral_face(img, cx, cy, s),
            Expression::Shocked => self.draw_shocked_face(img, cx, cy, s),
            Expression::Serious => self.draw_serious_face(img, cx, cy, s),
            Expression::Mischievous => self.draw_mischievous_face(img, cx, cy, s),
            Expression::MindBlown => self.draw_mind_blown_face(img, cx, cy, s),
            Expression::Whispering => self.draw_whispering_face(img, cx, cy, s),
        }
    }

    /// Width of the image of the character at the scale given: 500 units.
    pub open spec fn spec_sprite_width(scale: Fixed) -> u32 {
        Fixed::from_int(500).times(scale).extent()
    }

    #[verifier::when_used_as_spec(spec_sprite_width)]
    pub fn sprite_width(scale: Fixed) -> (r: u32)
        ensures
            r == Character::spec_sprite_width(scale),
    {
        Fixed::from_int(500).times(scale).extent()
    }
    /// Height of the image of the character at the scale given: 600 units.
    pub open spec fn spec_sprite_height(scale: Fixed) -> u32 {
        Fixed::from_int(600).times(scale).extent()
    }

    #[verifier::when_used_as_spec(spec_sprite_height)]
    pub fn sprite_height(scale: Fixed) -> (r: u32)
        ensures
            r == Character::spec_sprite_height(scale),
    {
        Fixed::from_int(600).times(scale).extent()
    }

    /// The pixel `(px, py)` of the character: back to front the body, the
    /// neck, the head, the ears, the hair and the face, all placed relative
    /// to the middle of the image and scaled alike.
    pub open spec fn spec_pixel(&self, expression: Expression, scale: Fixed, px: int, py: int) -> Color {
        let cx = Fixed::ratio(Character::spec_sprite_width(scale) as i64, 2);
        let cy = Fixed::ratio(Character::spec_sprite_height(scale) as i64, 2);
        self.spec_face(
            self.spec_hair(
                self.spec_ears(
                    self.spec_head(
                        self.spec_neck(
                            self.spec_body(
                                Color::transparent(),
                                px,
                                py,
                                cx,
                                cy.plus(scale.times(Fixed::from_int(180))),
                                scale,
                            ),
                            px,
                            py,
                            cx,
                            cy.plus(scale.times(Fixed::from_int(90))),
                            scale,
                        ),
                        px,
                        py,
                        cx,
                        cy,
                        scale,
                    ),
                    px,
                    py,
                    cx,
                    cy,
                    scale,
                ),
                px,
                py,
                cx,
                cy.minus(scale.times(Fixed::from_int(60))),
                scale,
            ),
            px,
            py,
            cx,
            cy,
            scale,
            expression,
        )
    }

    /// The character with the expression given, on a transparent image of
    /// 500 by 600 units at the scale given.
#[verifier::rlimit(50)]
    pub fn render(&self, expression: Expression, scale: Fixed) -> (img: Canvas)
        requires
            fits_memory(
                Character::spec_sprite_width(scale) as int,
                Character::spec_sprite_height(scale) as int,
            ),
        ensures
            img.spec_width() == Character::spec_sprite_width(scale),
            img.spec_height() == Character::spec_sprite_height(scale),
            forall|x: int, y: int|
                img.contains(x, y) ==> #[trigger] img.at(x, y) == self.spec_pixel(
                    expression,
                    scale,
                    x,
                    y,
                ),
    {
        let width: u32 = Character::sprite_width(scale);
        let height: u32 = Character::sprite_height(scale);
        let mut img = Canvas::new(width, height);
        let cx = Fixed::ratio(width as i64, 2);
        let cy = Fixed::ratio(height as i64, 2);
        self.draw_body(&mut img, cx, cy.plus(scale.times(Fixed::from_int(180))), scale);
        self.draw_neck(&mut img, cx, cy.plus(scale.times(Fixed::from_int(90))), scale);
        self.draw_head(&mut img, cx, cy, scale);
        self.draw_ears(&mut img, cx, cy, scale);
        self.draw_hair(&mut img, cx, cy.minus(scale.times(Fixed::from_int(60))), scale);
        self.draw_face(&mut img, cx, cy, scale, expression);
        img
    }
}

impl Default for Character {
    fn default() -> (c: Character)
        ensures
            c == Character::spec_new(),
    {
        Character::new()
    }
}

} // verus!
