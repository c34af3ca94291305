//! Motion curves and effect overlays.

use vstd::prelude::*;
use crate::canvas::{fits_memory, spec_laid_over, Canvas, PixelRule};
use crate::color::{spec_blend_additive, spec_lerp_color, Color};
use crate::fixed::{
    fx_div, fx_mul, fx_sqrt, lemma_fx_sqrt_at_least, lemma_fx_sqrt_fits, sat64, Fixed, SCALE,
};
use crate::shapes::{
    falloff_alpha, hypot, pixel_dist, spec_falloff_alpha, spec_hypot, spec_pixel_dist,
};
use crate::trig::TWO_PI_RAW;

verus! {

/// Easing curves: each maps a progress, clamped into `0 ..= 1`, to an
/// animated value.
pub struct Easing;

/// The raw bounce curve at the raw progress `t` in `0 ..= SCALE`: four
/// parabolic arcs, `(121/16) t²` and three more that start where the one
/// before ends, each rounded down.
pub open spec fn bounce_raw(t: int) -> int {
    if 11 * t < 4_000_000 {
        (121 * (t * t)) / 16_000_000
    } else if 11 * t < 8_000_000 {
        ((11 * t - 6_000_000) * (11 * t - 6_000_000) + 12_000_000_000_000) / 16_000_000
    } else if 11 * t < 10_000_000 {
        ((11 * t - 9_000_000) * (11 * t - 9_000_000) + 15_000_000_000_000) / 16_000_000
    } else {
        ((22 * t - 21_000_000) * (22 * t - 21_000_000) + 63_000_000_000_000) / 64_000_000
    }
}

proof fn lemma_square_small(a: int)
    by (nonlinear_arith)
    requires
        -40_000_000 <= a <= 40_000_000,
    ensures
        0 <= a * a <= 1_600_000_000_000_000,
{
}

impl Easing {
    pub open spec fn spec_linear(t: Fixed) -> Fixed {
        t.unit()
    }

    /// The progress itself.
    #[verifier::when_used_as_spec(spec_linear)]
    pub fn linear(t: Fixed) -> (r: Fixed)
        ensures
            r == Easing::spec_linear(t),
    {
        t.unit()
    }

    pub open spec fn spec_ease_in(t: Fixed) -> Fixed {
        t.unit().times(t.unit())
    }

    /// Slow start: the square of the progress.
    #[verifier::when_used_as_spec(spec_ease_in)]
    pub fn ease_in(t: Fixed) -> (r: Fixed)
        ensures
            r == Easing::spec_ease_in(t),
    {
        let u = t.unit();
        u.times(u)
    }

    pub open spec fn spec_ease_out(t: Fixed) -> Fixed {
        Fixed::one().minus(Fixed::one().minus(t.unit()).times(Fixed::one().minus(t.unit())))
    }

    /// Slow end: one less the square of what is left.
    #[verifier::when_used_as_spec(spec_ease_out)]
    pub fn ease_out(t: Fixed) -> (r: Fixed)
        ensures
            r == Easing::spec_ease_out(t),
    {
        let rest = Fixed::one().minus(t.unit());
        Fixed::one().minus(rest.times(rest))
    }

    pub open spec fn spec_ease_in_out(t: Fixed) -> Fixed {
        let u = t.unit();
        if u.below(Fixed::millionths(500_000)) {
            Fixed::from_int(2).times(u).times(u)
        } else {
            let v = Fixed::from_int(2).minus(Fixed::from_int(2).times(u));
            Fixed::one().minus(v.times(v).over(Fixed::from_int(2)))
        }
    }

    /// Slow start and slow end.
    #[verifier::when_used_as_spec(spec_ease_in_out)]
    pub fn ease_in_out(t: Fixed) -> (r: Fixed)
        ensures
            r == Easing::spec_ease_in_out(t),
    {
        let u = t.unit();
        if u.below(Fixed::millionths(500_000)) {
            Fixed::from_int(2).times(u).times(u)
        } else {
            let v = Fixed::from_int(2).minus(Fixed::from_int(2).times(u));
            Fixed::one().minus(v.times(v).over(Fixed::from_int(2)))
        }
    }

    pub open spec fn spec_bounce(t: Fixed) -> Fixed {
        Fixed { raw: bounce_raw(t.unit().raw as int) as i64 }
    }

    /// A ball that drops and bounces three times.
    #[verifier::when_used_as_spec(spec_bounce)]
    pub fn bounce(t: Fixed) -> (r: Fixed)
        ensures
            r == Easing::spec_bounce(t),
            0 <= r.raw <= SCALE,
    {
        let u: i64 = t.unit().raw;
        proof {
            lemma_square_small(u as int);
            lemma_square_small(11 * u - 6_000_000);
            lemma_square_small(11 * u - 9_000_000);
            lemma_square_small(22 * u - 21_000_000);
            assert(11 * u < 4_000_000 ==> u * u <= 132_231_404_959) by (nonlinear_arith)
                requires
                    0 <= u,
            ;
            assert(4_000_000 <= 11 * u < 8_000_000 ==> (11 * u - 6_000_000) * (11 * u
                - 6_000_000) <= 4_000_000_000_000) by (nonlinear_arith);
            assert(8_000_000 <= 11 * u < 10_000_000 ==> (11 * u - 9_000_000) * (11 * u
                - 9_000_000) <= 1_000_000_000_000) by (nonlinear_arith);
            assert(10_000_000 <= 11 * u && u <= 1_000_000 ==> (22 * u - 21_000_000) * (22 * u
                - 21_000_000) <= 1_000_000_000_000) by (nonlinear_arith);
        }
        let raw: i64 = if 11 * u < 4_000_000 {
            (121 * (u * u)) / 16_000_000
        } else if 11 * u < 8_000_000 {
            let d: i64 = 11 * u - 6_000_000;
            (d * d + 12_000_000_000_000) / 16_000_000
        } else if 11 * u < 10_000_000 {
            let d: i64 = 11 * u - 9_000_000;
            (d * d + 15_000_000_000_000) / 16_000_000
        } else {
            let d: i64 = 22 * u - 21_000_000;
            (d * d + 63_000_000_000_000) / 64_000_000
        };
        Fixed { raw }
    }

    pub open spec fn spec_elastic(t: Fixed) -> Fixed {
        let u = t.unit();
        if u.raw == 0 || u.raw == SCALE {
            u
        } else {
            let back = u.minus(Fixed::one());
            let swing = back.minus(Fixed::millionths(75_000)).times(
                Fixed::millionths(TWO_PI_RAW),
            ).over(Fixed::millionths(300_000)).sine();
            Fixed::from_int(10).times(back).exp2().times(swing).negated().unit()
        }
    }

    /// A damped sine that settles on the end: with the period 0.3,
    /// `-(2^(10 (t - 1)) · sin((t - 1 - 0.075) · 2π / 0.3))`, kept within
    /// `0 ..= 1`.
    #[verifier::when_used_as_spec(spec_elastic)]
    pub fn elastic(t: Fixed) -> (r: Fixed)
        ensures
            r == Easing::spec_elastic(t),
            0 <= r.raw <= SCALE,
    {
        let u = t.unit();
        if u.raw == 0 || u.raw == SCALE {
            u
        } else {
            let back = u.minus(Fixed::one());
            let swing = back.minus(Fixed::millionths(75_000)).times(
                Fixed::millionths(TWO_PI_RAW),
            ).over(Fixed::millionths(300_000)).sine();
            Fixed::from_int(10).times(back).exp2().times(swing).negated().unit()
        }
    }
}

/// Every easing curve starts at zero, and every one but the elastic and the
/// bounce is pinned to one at the end by its formula; those two end on one
/// as well.
pub proof fn lemma_easing_endpoints()
    ensures
        Easing::spec_linear(Fixed::zero()) == Fixed::zero(),
        Easing::spec_linear(Fixed::one()) == Fixed::one(),
        Easing::spec_ease_in(Fixed::zero()) == Fixed::zero(),
        Easing::spec_ease_in(Fixed::one()) == Fixed::one(),
        Easing::spec_ease_out(Fixed::zero()) == Fixed::zero(),
        Easing::spec_ease_out(Fixed::one()) == Fixed::one(),
        Easing::spec_ease_in_out(Fixed::zero()) == Fixed::zero(),
        Easing::spec_ease_in_out(Fixed::one()) == Fixed::one(),
        Easing::spec_bounce(Fixed::zero()) == Fixed::zero(),
        Easing::spec_bounce(Fixed::one()) == Fixed::one(),
        Easing::spec_elastic(Fixed::zero()) == Fixed::zero(),
        Easing::spec_elastic(Fixed::one()) == Fixed::one(),
{
    reveal(fx_mul);
    reveal(fx_div);
    assert(0int * 0int == 0) by (nonlinear_arith);
    assert((SCALE as int) * (SCALE as int) == 1_000_000_000_000) by (nonlinear_arith)
        requires
            SCALE == 1_000_000,
    ;
    assert(2_000_000int * 2_000_000int == 4_000_000_000_000) by (nonlinear_arith);
    assert(2 * SCALE == 2_000_000);
    assert(1_000_000int * 1_000_000int == 1_000_000_000_000) by (nonlinear_arith);
    assert(2_000_000int * 0int == 0) by (nonlinear_arith);
    assert(2_000_000int * 1_000_000int == 2_000_000_000_000) by (nonlinear_arith);
    assert(0int * 1_000_000int == 0) by (nonlinear_arith);
}

/// Out of range progress is clamped, so every easing curve is constant
/// before the start and after the end.
pub proof fn lemma_easing_clamps(t: Fixed)
    ensures
        t.raw <= 0 ==> Easing::spec_ease_in(t) == Easing::spec_ease_in(Fixed::zero())
            && Easing::spec_ease_out(t) == Easing::spec_ease_out(Fixed::zero()),
        t.raw >= SCALE ==> Easing::spec_ease_in(t) == Easing::spec_ease_in(Fixed::one())
            && Easing::spec_ease_out(t) == Easing::spec_ease_out(Fixed::one()),
{
}

/// Every easing curve stays within `0 ..= 1` for every progress.
pub proof fn lemma_ease_range(t: Fixed)
    ensures
        0 <= Easing::spec_linear(t).raw <= SCALE,
        0 <= Easing::spec_ease_in(t).raw <= SCALE,
        0 <= Easing::spec_ease_out(t).raw <= SCALE,
        0 <= Easing::spec_ease_in_out(t).raw <= SCALE,
        0 <= Easing::spec_bounce(t).raw <= SCALE,
        0 <= Easing::spec_elastic(t).raw <= SCALE,
{
    reveal(fx_mul);
    reveal(fx_div);
    let u = t.unit().raw as int;
    let v = SCALE - u;
    assert(0 <= u * u <= SCALE * SCALE) by (nonlinear_arith)
        requires
            0 <= u <= SCALE,
    ;
    assert(0 <= v * v <= SCALE * SCALE) by (nonlinear_arith)
        requires
            0 <= v <= SCALE,
    ;
    assert((SCALE as int) * (SCALE as int) == 1_000_000_000_000) by (nonlinear_arith)
        requires
            SCALE == 1_000_000,
    ;
    // In and out: twice the square below the middle, one less half a square above.
    assert((2 * SCALE * u) / (SCALE as int) == 2 * u) by (nonlinear_arith)
        requires
            0 <= u,
            SCALE == 1_000_000,
    ;
    let w = 2 * SCALE - 2 * u;
    if u < 500_000 {
        assert(0 <= (2 * u) * u <= 500_000 * SCALE) by (nonlinear_arith)
            requires
                0 <= u < 500_000,
                SCALE == 1_000_000,
        ;
    } else {
        assert(0 <= w * w <= SCALE * SCALE) by (nonlinear_arith)
            requires
                0 <= w <= SCALE,
        ;
        let sq = (w * w) / (SCALE as int);
        assert(0 <= sq <= SCALE);
        assert(0 <= (sq * SCALE) / (2 * SCALE) <= SCALE) by (nonlinear_arith)
            requires
                0 <= sq <= SCALE,
                SCALE == 1_000_000,
        ;
    }
    // The bounce: each of its four arcs ends at or below one.
    assert(11 * u < 4_000_000 ==> 0 <= 121 * (u * u) <= 16_000_000 * SCALE) by (nonlinear_arith)
        requires
            0 <= u,
            SCALE == 1_000_000,
    ;
    assert(4_000_000 <= 11 * u < 8_000_000 ==> 0 <= (11 * u - 6_000_000) * (11 * u - 6_000_000)
        <= 4_000_000_000_000) by (nonlinear_arith);
    assert(8_000_000 <= 11 * u < 10_000_000 ==> 0 <= (11 * u - 9_000_000) * (11 * u - 9_000_000)
        <= 1_000_000_000_000) by (nonlinear_arith);
    assert(10_000_000 <= 11 * u && u <= 1_000_000 ==> 0 <= (22 * u - 21_000_000) * (22 * u
        - 21_000_000) <= 1_000_000_000_000) by (nonlinear_arith);
}

/// A shake of the picture: two oscillators at different multiples of one
/// frequency.
pub struct ScreenShake {
    pub intensity: Fixed,
    pub frequency: Fixed,
}

impl ScreenShake {
    pub fn new(intensity: Fixed, frequency: Fixed) -> (s: ScreenShake)
        ensures
            s.intensity == intensity,
            s.frequency == frequency,
    {
        ScreenShake { intensity, frequency }
    }

    pub open spec fn spec_get_offset(&self, time: Fixed) -> (i32, i32) {
        (
            time.times(self.frequency).times(Fixed::from_int(17)).sine().times(
                self.intensity,
            ).pixels(),
            time.times(self.frequency).times(Fixed::from_int(23)).cosine().times(
                self.intensity,
            ).pixels(),
        )
    }

    /// The offset in pixels at `time`: a sine at 17 times the frequency
    /// across and a cosine at 23 times the frequency down, each scaled by
    /// the intensity and rounded toward zero.
    #[verifier::when_used_as_spec(spec_get_offset)]
    pub fn get_offset(&self, time: Fixed) -> (offset: (i32, i32))
        ensures
            offset == self.spec_get_offset(time),
    {
        let phase = time.times(self.frequency);
        (
            phase.times(Fixed::from_int(17)).sine().times(self.intensity).pixels(),
            phase.times(Fixed::from_int(23)).cosine().times(self.intensity).pixels(),
        )
    }
}

/// Linear interpolation from `start` to `end` at `t`, not clamped.
pub open spec fn spec_between(start: Fixed, end: Fixed, t: Fixed) -> Fixed {
    start.plus(end.minus(start).times(t))
}

/// Zoom animation.
pub struct Zoom;

impl Zoom {
    /// The scale factor at `progress` on the way from `start_scale` to
    /// `end_scale`, warped by `easing`.
    pub fn calculate_scale(
        start_scale: Fixed,
        end_scale: Fixed,
        progress: Fixed,
        easing: impl Fn(Fixed) -> Fixed,
    ) -> (scale: Fixed)
        requires
            call_requires(easing, (progress,)),
        ensures
            exists|t: Fixed| #[trigger]
                call_ensures(easing, (progress,), t) && scale == spec_between(
                    start_scale,
                    end_scale,
                    t,
                ),
    {
        let t = easing(progress);
        start_scale.plus(end_scale.minus(start_scale).times(t))
    }
}

/// Pulsing of a scale factor.
pub struct Pulse;

impl Pulse {
    pub open spec fn spec_get_scale(time: Fixed, base_scale: Fixed, amplitude: Fixed, frequency: Fixed) -> Fixed {
        base_scale.plus(
            amplitude.times(
                time.times(frequency).times(Fixed::millionths(TWO_PI_RAW)).sine(),
            ),
        )
    }

    /// The base scale plus a sine of the given amplitude and frequency.
    #[verifier::when_used_as_spec(spec_get_scale)]
    pub fn get_scale(time: Fixed, base_scale: Fixed, amplitude: Fixed, frequency: Fixed) -> (scale: Fixed)
        ensures
            scale == Pulse::spec_get_scale(time, base_scale, amplitude, frequency),
    {
        base_scale.plus(
            amplitude.times(
                time.times(frequency).times(Fixed::millionths(TWO_PI_RAW)).sine(),
            ),
        )
    }
}

/// Slide-in animation.
pub struct Slide;

impl Slide {
    /// Position between `start` and `end` at the eased progress `t`, rounded
    /// toward zero.
    pub open spec fn spec_along(start: i32, end: i32, t: Fixed) -> i32 {
        Fixed::from_int(start as i64).plus(
            Fixed::from_int((end as i64 - start as i64) as i64).times(t),
        ).pixels()
    }

    #[verifier::when_used_as_spec(spec_along)]
    pub fn along(start: i32, end: i32, t: Fixed) -> (r: i32)
        ensures
            r == Slide::spec_along(start, end, t),
    {
        Fixed::from_int(start as i64).plus(
            Fixed::from_int((end as i64 - start as i64) as i64).times(t),
        ).pixels()
    }

    /// Where an element of the extent `element` comes to rest when it is centred
    /// on a canvas of the extent `canvas`.
    pub open spec fn spec_rest(canvas: i32, element: i32) -> i32 {
        Fixed::ratio((canvas as i64 - element as i64) as i64, 2).pixels()
    }

    #[verifier::when_used_as_spec(spec_rest)]
    pub fn rest(canvas: i32, element: i32) -> (r: i32)
        ensures
            r == Slide::spec_rest(canvas, element),
    {
        Fixed::ratio((canvas as i64 - element as i64) as i64, 2).pixels()
    }

    /// Column of an element on its way from `start_x` to `end_x`.
    pub fn from_left(start_x: i32, end_x: i32, progress: Fixed, easing: impl Fn(Fixed) -> Fixed) -> (x: i32)
        requires
            call_requires(easing, (progress,)),
        ensures
            exists|t: Fixed| #[trigger]
                call_ensures(easing, (progress,), t) && x == Slide::spec_along(start_x, end_x, t),
    {
        let t = easing(progress);
        Slide::along(start_x, end_x, t)
    }

    /// Column of an element that enters from the right edge of the canvas
    /// and comes to rest centred.
    pub fn from_right(
        canvas_width: i32,
        element_width: i32,
        progress: Fixed,
        easing: impl Fn(Fixed) -> Fixed,
    ) -> (x: i32)
        requires
            call_requires(easing, (progress,)),
        ensures
            exists|t: Fixed| #[trigger]
                call_ensures(easing, (progress,), t) && x == Slide::spec_along(
                    canvas_width,
                    Slide::spec_rest(canvas_width, element_width),
                    t,
                ),
    {
        let t = easing(progress);
        Slide::along(canvas_width, Slide::rest(canvas_width, element_width), t)
    }

    /// Row of an element on its way from `start_y` to `end_y`.
    pub fn from_top(start_y: i32, end_y: i32, progress: Fixed, easing: impl Fn(Fixed) -> Fixed) -> (y: i32)
        requires
            call_requires(easing, (progress,)),
        ensures
            exists|t: Fixed| #[trigger]
                call_ensures(easing, (progress,), t) && y == Slide::spec_along(start_y, end_y, t),
    {
        let t = easing(progress);
        Slide::along(start_y, end_y, t)
    }

    /// Row of an element that enters from the bottom edge of the canvas and
    /// comes to rest centred.
    pub fn from_bottom(
        canvas_height: i32,
        element_height: i32,
        progress: Fixed,
        easing: impl Fn(Fixed) -> Fixed,
    ) -> (y: i32)
        requires
            call_requires(easing, (progress,)),
        ensures
            exists|t: Fixed| #[trigger]
                call_ensures(easing, (progress,), t) && y == Slide::spec_along(
                    canvas_height,
                    Slide::spec_rest(canvas_height, element_height),
                    t,
                ),
    {
        let t = easing(progress);
        Slide::along(canvas_height, Slide::rest(canvas_height, element_height), t)
    }
}

/// Pop-in animation: a scale that shoots past one before it settles.
pub struct PopIn;

/// The back-ease constant that gives an overshoot of a tenth.
pub const BACK_EASE: i64 = 1_701_580;

impl PopIn {
    pub open spec fn spec_get_scale(progress: Fixed, overshoot: Fixed) -> Fixed {
        let t = progress.unit();
        if t.raw == 0 {
            Fixed::zero()
        } else if t.raw == SCALE {
            Fixed::one()
        } else {
            let s = Fixed::millionths(BACK_EASE).times(overshoot);
            let back = t.minus(Fixed::one());
            back.times(back).times(s.plus(Fixed::one()).times(back).plus(s)).plus(Fixed::one())
        }
    }

    /// The scale at `progress`: zero at the start, one at the end, and in
    /// between the cubic `(t-1)² ((s+1)(t-1) + s) + 1` with
    /// `s = 1.70158 · overshoot`.
    #[verifier::when_used_as_spec(spec_get_scale)]
    pub fn get_scale(progress: Fixed, overshoot: Fixed) -> (scale: Fixed)
        ensures
            scale == PopIn::spec_get_scale(progress, overshoot),
    {
        let t = progress.unit();
        if t.raw == 0 {
            Fixed::zero()
        } else if t.raw == SCALE {
            Fixed::one()
        } else {
            let s = Fixed::millionths(BACK_EASE).times(overshoot);
            let back = t.minus(Fixed::one());
            back.times(back).times(s.plus(Fixed::one()).times(back).plus(s)).plus(Fixed::one())
        }
    }
}

/// Whatever the overshoot, a pop-in starts from nothing and ends at full
/// size, also for progress outside `0 ..= 1`.
pub proof fn lemma_pop_in_endpoints(progress: Fixed, overshoot: Fixed)
    ensures
        progress.raw <= 0 ==> PopIn::spec_get_scale(progress, overshoot) == Fixed::zero(),
        progress.raw >= SCALE ==> PopIn::spec_get_scale(progress, overshoot) == Fixed::one(),
{
}

/// Alpha of an overlay at the strength `level`, clamped into `0 ..= 1`, of
/// a full alpha `full`.
pub open spec fn spec_overlay_alpha(level: Fixed, full: u8) -> u8 {
    level.unit().times(Fixed::from_int(full as i64)).channel()
}

#[verifier::when_used_as_spec(spec_overlay_alpha)]
pub fn overlay_alpha(level: Fixed, full: u8) -> (a: u8)
    ensures
        a == spec_overlay_alpha(level, full),
{
    level.unit().times(Fixed::from_int(full as i64)).channel()
}

/// An overlay at no strength is fully transparent, one at full strength has
/// the full alpha.
pub proof fn lemma_overlay_alpha_endpoints(full: u8)
    ensures
        spec_overlay_alpha(Fixed::zero(), full) == 0,
        spec_overlay_alpha(Fixed::one(), full) == full,
{
    reveal(fx_mul);
    assert(0 * (full * 1_000_000) == 0) by (nonlinear_arith);
    assert((1_000_000 * (full * 1_000_000)) / 1_000_000 == full * 1_000_000) by (nonlinear_arith);
    assert((full * 1_000_000) / 1_000_000 == full) by (nonlinear_arith);
}

/// A fade to black is clear at progress zero and opaque black at progress
/// one, at every pixel and whatever the extent; a fade from black is the
/// other way round.
pub proof fn lemma_fade_ends()
    ensures
        Color::rgba(0, 0, 0, spec_overlay_alpha(Fixed::zero(), 255)) == Color::rgba(0, 0, 0, 0),
        Color::rgba(0, 0, 0, spec_overlay_alpha(Fixed::one(), 255)) == Color::rgba(0, 0, 0, 255),
        Color::rgba(0, 0, 0, spec_overlay_alpha(Fixed::one().minus(Fixed::zero().unit()), 255))
            == Color::rgba(0, 0, 0, 255),
        Color::rgba(0, 0, 0, spec_overlay_alpha(Fixed::one().minus(Fixed::one().unit()), 255))
            == Color::rgba(0, 0, 0, 0),
{
    lemma_overlay_alpha_endpoints(255);
}

/// The rule that scales the alpha of a pixel by `alpha / 255`.
pub struct AlphaScale {
    pub alpha: u8,
}

impl PixelRule for AlphaScale {
    open spec fn spec_shade(&self, old: Color, x: int, y: int) -> Color {
        old.with_alpha(((old.a as int * self.alpha as int) / 255) as u8)
    }

    fn shade(&self, old: Color, x: u32, y: u32) -> (c: Color) {
        proof {
            assert(0 <= (old.a as int) * (self.alpha as int) <= 255 * 255) by (nonlinear_arith)
                requires
                    0 <= old.a <= 255,
                    0 <= self.alpha <= 255,
            ;
        }
        let a: u32 = (old.a as u32 * self.alpha as u32) / 255;
        old.with_alpha(a as u8)
    }
}

/// Fade effect.
pub struct Fade;

impl Fade {
    /// Scales the alpha of every pixel by `alpha`, clamped into `0 ..= 1`
    /// and taken in steps of 1/255.
#[verifier::rlimit(50)]
    pub fn apply(img: &mut Canvas, alpha: Fixed)
        ensures
            final(img).spec_width() == old(img).spec_width(),
            final(img).spec_height() == old(img).spec_height(),
            forall|x: int, y: int|
                final(img).contains(x, y) ==> #[trigger] final(img).at(x, y) == (AlphaScale {
                    alpha: spec_overlay_alpha(alpha, 255),
                }).spec_shade(old(img).at(x, y), x, y),
    {
        let rule = AlphaScale { alpha: overlay_alpha(alpha, 255) };
        img.paint(&rule);
    }

    /// A black overlay that is opaque at progress zero and gone at one.
    pub fn from_black(width: u32, height: u32, progress: Fixed) -> (img: Canvas)
        requires
            fits_memory(width as int, height as int),
        ensures
            img.spec_width() == width,
            img.spec_height() == height,
            forall|x: int, y: int|
                img.contains(x, y) ==> #[trigger] img.at(x, y) == Color::rgba(
                    0,
                    0,
                    0,
                    spec_overlay_alpha(Fixed::one().minus(progress.unit()), 255),
                ),
    {
        let alpha: u8 = overlay_alpha(Fixed::one().minus(progress.unit()), 255);
        Canvas::filled(width, height, Color::rgba(0, 0, 0, alpha))
    }

    /// A black overlay that is gone at progress zero and opaque at one.
    pub fn to_black(width: u32, height: u32, progress: Fixed) -> (img: Canvas)
        requires
            fits_memory(width as int, height as int),
        ensures
            img.spec_width() == width,
            img.spec_height() == height,
            forall|x: int, y: int|
                img.contains(x, y) ==> #[trigger] img.at(x, y) == Color::rgba(
                    0,
                    0,
                    0,
                    spec_overlay_alpha(progress, 255),
                ),
    {
        let alpha: u8 = overlay_alpha(progress, 255);
        Canvas::filled(width, height, Color::rgba(0, 0, 0, alpha))
    }
}

/// Flash effect.
pub struct Flash;

impl Flash {
    /// A white overlay at the given intensity.
    pub fn white(width: u32, height: u32, intensity: Fixed) -> (img: Canvas)
        requires
            fits_memory(width as int, height as int),
        ensures
            img.spec_width() == width,
            img.spec_height() == height,
            forall|x: int, y: int|
                img.contains(x, y) ==> #[trigger] img.at(x, y) == Color::rgba(
                    255,
                    255,
                    255,
                    spec_overlay_alpha(intensity, 255),
                ),
    {
        let alpha: u8 = overlay_alpha(intensity, 255);
        Canvas::filled(width, height, Color::rgba(255, 255, 255, alpha))
    }

    /// An overlay of `color` with its alpha scaled by the intensity.
    pub fn colored(width: u32, height: u32, color: Color, intensity: Fixed) -> (img: Canvas)
        requires
            fits_memory(width as int, height as int),
        ensures
            img.spec_width() == width,
            img.spec_height() == height,
            forall|x: int, y: int|
                img.contains(x, y) ==> #[trigger] img.at(x, y) == color.with_alpha(
                    spec_overlay_alpha(intensity, color.a),
                ),
    {
        let alpha: u8 = overlay_alpha(intensity, color.a);
        Canvas::filled(width, height, color.with_alpha(alpha))
    }
}

/// The rule of a vertical gradient over `height` rows.
pub struct Gradient {
    pub top: Color,
    pub bottom: Color,
    pub height: u32,
}

impl PixelRule for Gradient {
    /// Row `y` has the colour interpolated at `y / height`.
    open spec fn spec_shade(&self, old: Color, x: int, y: int) -> Color {
        spec_lerp_color(self.top, self.bottom, Fixed::ratio(y as i64, self.height as i64))
    }

    fn shade(&self, old: Color, x: u32, y: u32) -> (c: Color) {
        Color::lerp_color(self.top, self.bottom, Fixed::ratio(y as i64, self.height as i64))
    }
}

/// The rule of a radial vignette: black, more opaque toward the corners.
pub struct Vignette {
    pub width: u32,
    pub height: u32,
    pub strength: Fixed,
}

impl Vignette {
    /// Alpha at the pixel `(x, y)`: the square of its distance from the
    /// middle, as a fraction of the distance of a corner, times the strength
    /// times 255, capped at 255.
    pub open spec fn spec_alpha(&self, x: int, y: int) -> u8 {
        let cx = Fixed::ratio(self.width as i64, 2);
        let cy = Fixed::ratio(self.height as i64, 2);
        let dist = spec_pixel_dist(x, y, cx, cy).over(spec_hypot(cx, cy));
        dist.times(dist).times(self.strength).times(Fixed::from_int(255)).channel()
    }

    pub fn alpha(&self, x: u32, y: u32) -> (a: u8)
        ensures
            a == self.spec_alpha(x as int, y as int),
    {
        let cx = Fixed::ratio(self.width as i64, 2);
        let cy = Fixed::ratio(self.height as i64, 2);
        let dist = pixel_dist(x, y, cx, cy).over(hypot(cx, cy));
        dist.times(dist).times(self.strength).times(Fixed::from_int(255)).channel()
    }
}

impl PixelRule for Vignette {
    open spec fn spec_shade(&self, old: Color, x: int, y: int) -> Color {
        Color::rgba(0, 0, 0, self.spec_alpha(x, y))
    }

    fn shade(&self, old: Color, x: u32, y: u32) -> (c: Color) {
        Color::rgba(0, 0, 0, self.alpha(x, y))
    }
}

/// Colour utilities.
pub struct ColorUtils;

impl ColorUtils {
    /// Linear interpolation between two colours, `t` clamped into `0 ..= 1`.
    pub fn lerp(color1: Color, color2: Color, t: Fixed) -> (c: Color)
        ensures
            c == spec_lerp_color(color1, color2, t),
    {
        Color::lerp_color(color1, color2, t)
    }

    /// A canvas with a vertical gradient from `top` to `bottom`.
    pub fn gradient(width: u32, height: u32, top: Color, bottom: Color) -> (img: Canvas)
        requires
            fits_memory(width as int, height as int),
        ensures
            img.spec_width() == width,
            img.spec_height() == height,
            forall|x: int, y: int|
                img.contains(x, y) ==> #[trigger] img.at(x, y) == spec_lerp_color(
                    top,
                    bottom,
                    Fixed::ratio(y as i64, height as i64),
                ),
    {
        let mut img = Canvas::new(width, height);
        let rule = Gradient { top, bottom, height };
        img.paint(&rule);
        img
    }

    /// A canvas with a radial vignette of the given strength.
    pub fn vignette(width: u32, height: u32, strength: Fixed) -> (img: Canvas)
        requires
            fits_memory(width as int, height as int),
        ensures
            img.spec_width() == width,
            img.spec_height() == height,
            forall|x: int, y: int|
                img.contains(x, y) ==> #[trigger] img.at(x, y) == Color::rgba(
                    0,
                    0,
                    0,
                    (Vignette { width, height, strength }).spec_alpha(x, y),
                ),
    {
        let mut img = Canvas::new(width, height);
        let rule = Vignette { width, height, strength };
        img.paint(&rule);
        img
    }
}

/// The rule that adds one colour to a pixel.
pub struct Additive {
    pub color: Color,
}

impl PixelRule for Additive {
    open spec fn spec_shade(&self, old: Color, x: int, y: int) -> Color {
        spec_blend_additive(old, self.color)
    }

    fn shade(&self, old: Color, x: u32, y: u32) -> (c: Color) {
        Color::blend_additive(old, self.color)
    }
}

/// A cross-shaped star: one arm across and one down, `size` pixels to
/// either side of `(x, y)`, brightest in the middle.
pub struct Star {
    pub x: i32,
    pub y: i32,
    pub size: i32,
    pub color: Color,
}

/// The larger of `v` and zero.
pub open spec fn at_least_zero(v: int) -> int {
    if v < 0 {
        0
    } else {
        v
    }
}

impl Star {
    /// Alpha of the star `d` pixels from its middle.
    pub open spec fn spec_alpha(&self, d: int) -> u8 {
        Fixed::one().minus(
            Fixed::from_int(d as i64).magnitude().over(Fixed::from_int(self.size as i64)),
        ).times(Fixed::from_int(self.color.a as i64)).channel()
    }

    pub fn alpha(&self, d: i64) -> (a: u8)
        ensures
            a == self.spec_alpha(d as int),
    {
        Fixed::one().minus(
            Fixed::from_int(d).magnitude().over(Fixed::from_int(self.size as i64)),
        ).times(Fixed::from_int(self.color.a as i64)).channel()
    }

    /// What the step at the offset `d` makes of the pixel `(px, py)`: the
    /// point of the arm across, then the point of the arm down, each clamped
    /// to the first column and row, adds the colour where it is that pixel.
    pub open spec fn spec_step(&self, acc: Color, px: int, py: int, d: int) -> Color {
        let c = self.color.with_alpha(self.spec_alpha(d));
        let across = if px == at_least_zero(self.x + d) && py == at_least_zero(self.y as int) {
            spec_blend_additive(acc, c)
        } else {
            acc
        };
        if px == at_least_zero(self.x as int) && py == at_least_zero(self.y + d) {
            spec_blend_additive(across, c)
        } else {
            across
        }
    }

    /// What the first `n` steps, from the offset `-size` on, make of the
    /// pixel `(px, py)`.
    pub open spec fn spec_after(&self, acc: Color, px: int, py: int, n: nat) -> Color
        decreases n,
    {
        if n == 0 {
            acc
        } else {
            self.spec_step(
                self.spec_after(acc, px, py, (n - 1) as nat),
                px,
                py,
                n - 1 - self.size,
            )
        }
    }

    /// Number of steps of the whole star.
    pub open spec fn steps(&self) -> nat {
        if self.size < 0 {
            0
        } else {
            (2 * self.size + 1) as nat
        }
    }

    /// Draws the star onto `img` by additive blending.
#[verifier::rlimit(50)]
    pub fn draw(&self, img: &mut Canvas)
        ensures
            final(img).spec_width() == old(img).spec_width(),
            final(img).spec_height() == old(img).spec_height(),
            forall|x: int, y: int|
                final(img).contains(x, y) ==> #[trigger] final(img).at(x, y) == self.spec_after(
                    old(img).at(x, y),
                    x,
                    y,
                    self.steps(),
                ),
    {
        let s: i64 = self.size as i64;
        let w: u32 = img.width();
        let h: u32 = img.height();
        let mut d: i64 = -s;
        while d <= s
            invariant
                s == self.size,
                img.spec_width() == old(img).spec_width() == w,
                img.spec_height() == old(img).spec_height() == h,
                -s <= d <= s + 1 || s < 0,
                s < 0 ==> d == -s,
                forall|x: int, y: int|
                    img.contains(x, y) ==> #[trigger] img.at(x, y) == self.spec_after(
                        old(img).at(x, y),
                        x,
                        y,
                        if s < 0 {
                            0
                        } else {
                            (d + s) as nat
                        },
                    ),
            decreases s + 1 - d,
        {
            let rule = Additive { color: self.color.with_alpha(self.alpha(d)) };
            let hx: i64 = if self.x as i64 + d < 0 {
                0
            } else {
                self.x as i64 + d
            };
            let hy: i64 = if self.y < 0 {
                0
            } else {
                self.y as i64
            };
            if hx < w as i64 && hy < h as i64 {
                img.paint_region(&rule, hx as u32, hy as u32, hx as u32 + 1, hy as u32 + 1);
            }
            let vx: i64 = if self.x < 0 {
                0
            } else {
                self.x as i64
            };
            let vy: i64 = if self.y as i64 + d < 0 {
                0
            } else {
                self.y as i64 + d
            };
            if vx < w as i64 && vy < h as i64 {
                img.paint_region(&rule, vx as u32, vy as u32, vx as u32 + 1, vy as u32 + 1);
            }
            d = d + 1;
        }
    }
}

/// A field of twinkling stars that drift on periodic paths.
pub struct Sparkles {
    pub width: u32,
    pub height: u32,
    pub count: usize,
    pub time: Fixed,
    pub seed: u64,
}

/// `v` as a fixed-point number, saturated.
pub open spec fn spec_fixed_from_u64(v: u64) -> Fixed {
    Fixed::from_int(if v > i64::MAX as u64 {
        i64::MAX
    } else {
        v as i64
    })
}

#[verifier::when_used_as_spec(spec_fixed_from_u64)]
pub fn fixed_from_u64(v: u64) -> (r: Fixed)
    ensures
        r == spec_fixed_from_u64(v),
{
    Fixed::from_int(if v > i64::MAX as u64 {
        i64::MAX
    } else {
        v as i64
    })
}

/// A value that swings between zero and one with the sine of `angle`.
pub open spec fn spec_swing(angle: Fixed) -> Fixed {
    angle.sine().times(Fixed::millionths(500_000)).plus(Fixed::millionths(500_000))
}

#[verifier::when_used_as_spec(spec_swing)]
pub fn swing(angle: Fixed) -> (r: Fixed)
    ensures
        r == spec_swing(angle),
{
    angle.sine().times(Fixed::millionths(500_000)).plus(Fixed::millionths(500_000))
}

/// A value that swings between zero and one with the cosine of `angle`.
pub open spec fn spec_coswing(angle: Fixed) -> Fixed {
    angle.cosine().times(Fixed::millionths(500_000)).plus(Fixed::millionths(500_000))
}

#[verifier::when_used_as_spec(spec_coswing)]
pub fn coswing(angle: Fixed) -> (r: Fixed)
    ensures
        r == spec_coswing(angle),
{
    angle.cosine().times(Fixed::millionths(500_000)).plus(Fixed::millionths(500_000))
}

impl Sparkles {
    /// Phase of the star of index `i`: the seed plus 7.3 for each index.
    pub open spec fn spec_phase(&self, i: usize) -> Fixed {
        spec_fixed_from_u64(self.seed).plus(
            spec_fixed_from_u64(i as u64).times(Fixed::millionths(7_300_000)),
        )
    }

    #[verifier::when_used_as_spec(spec_phase)]
    pub fn phase(&self, i: usize) -> (p: Fixed)
        ensures
            p == self.spec_phase(i),
    {
        fixed_from_u64(self.seed).plus(fixed_from_u64(i as u64).times(Fixed::millionths(7_300_000)))
    }

    /// Twinkle of the star of index `i`, between zero and one.
    pub open spec fn spec_twinkle(&self, i: usize) -> Fixed {
        spec_swing(self.time.times(Fixed::from_int(5)).plus(self.spec_phase(i)))
    }

    #[verifier::when_used_as_spec(spec_twinkle)]
    pub fn twinkle(&self, i: usize) -> (t: Fixed)
        ensures
            t == self.spec_twinkle(i),
    {
        swing(self.time.times(Fixed::from_int(5)).plus(self.phase(i)))
    }

    /// The star of index `i`: its place follows a sine across and a cosine
    /// down, its size runs from 2 to 5 and its alpha up to 200 with its
    /// twinkle.
    pub open spec fn spec_star(&self, i: usize) -> Star {
        Star {
            x: spec_swing(
                self.spec_phase(i).times(Fixed::millionths(13_700_000)).plus(
                    self.time.times(Fixed::millionths(300_000)),
                ),
            ).times(Fixed::from_int(self.width as i64)).pixels(),
            y: spec_coswing(
                self.spec_phase(i).times(Fixed::millionths(17_300_000)).plus(
                    self.time.times(Fixed::millionths(200_000)),
                ),
            ).times(Fixed::from_int(self.height as i64)).pixels(),
            size: Fixed::from_int(2).plus(
                self.spec_twinkle(i).times(Fixed::from_int(3)),
            ).pixels(),
            color: Color::rgba(
                255,
                255,
                220,
                self.spec_twinkle(i).times(Fixed::from_int(200)).channel(),
            ),
        }
    }

    #[verifier::when_used_as_spec(spec_star)]
    pub fn star(&self, i: usize) -> (s: Star)
        ensures
            s == self.spec_star(i),
    {
        Star {
            x: swing(
                self.phase(i).times(Fixed::millionths(13_700_000)).plus(
                    self.time.times(Fixed::millionths(300_000)),
                ),
            ).times(Fixed::from_int(self.width as i64)).pixels(),
            y: coswing(
                self.phase(i).times(Fixed::millionths(17_300_000)).plus(
                    self.time.times(Fixed::millionths(200_000)),
                ),
            ).times(Fixed::from_int(self.height as i64)).pixels(),
            size: Fixed::from_int(2).plus(self.twinkle(i).times(Fixed::from_int(3))).pixels(),
            color: Color::rgba(
                255,
                255,
                220,
                self.twinkle(i).times(Fixed::from_int(200)).channel(),
            ),
        }
    }

    /// What the first `n` stars make of the pixel `(px, py)`.
    pub open spec fn spec_after(&self, acc: Color, px: int, py: int, n: nat) -> Color
        decreases n,
    {
        if n == 0 || n > usize::MAX {
            acc
        } else {
            let star = self.spec_star((n - 1) as usize);
            star.spec_after(
                self.spec_after(acc, px, py, (n - 1) as nat),
                px,
                py,
                star.steps(),
            )
        }
    }
}

/// The rule of a ring of light around the middle of a canvas.
pub struct EnergyWave {
    pub width: u32,
    pub height: u32,
    pub time: Fixed,
    pub color: Color,
}

/// Half the width of the ring of an energy wave, in pixels.
pub const WAVE_WIDTH: i64 = 30;

impl EnergyWave {
    /// Radius of the ring: it grows from nothing to the longer side of the
    /// canvas over two seconds and starts over.
    pub open spec fn spec_radius(&self) -> Fixed {
        self.time.remainder(Fixed::from_int(2)).over(Fixed::from_int(2)).times(
            Fixed::from_int(
                if self.width > self.height {
                    self.width as i64
                } else {
                    self.height as i64
                },
            ),
        )
    }

    #[verifier::when_used_as_spec(spec_radius)]
    pub fn radius(&self) -> (r: Fixed)
        ensures
            r == self.spec_radius(),
    {
        self.time.remainder(Fixed::from_int(2)).over(Fixed::from_int(2)).times(
            Fixed::from_int(
                if self.width > self.height {
                    self.width as i64
                } else {
                    self.height as i64
                },
            ),
        )
    }

    /// Distance of the pixel `(x, y)` from the ring.
    pub open spec fn spec_gap(&self, x: int, y: int) -> Fixed {
        spec_pixel_dist(
            x,
            y,
            Fixed::ratio(self.width as i64, 2),
            Fixed::ratio(self.height as i64, 2),
        ).minus(self.spec_radius()).magnitude()
    }

    pub fn gap(&self, x: u32, y: u32) -> (g: Fixed)
        ensures
            g == self.spec_gap(x as int, y as int),
    {
        pixel_dist(
            x,
            y,
            Fixed::ratio(self.width as i64, 2),
            Fixed::ratio(self.height as i64, 2),
        ).minus(self.radius()).magnitude()
    }
}

impl PixelRule for EnergyWave {
    /// Within thirty pixels of the ring a pixel is set to the colour with
    /// the alpha falling off quadratically with its distance from the ring.
    open spec fn spec_shade(&self, old: Color, x: int, y: int) -> Color {
        let gap = self.spec_gap(x, y);
        if gap.below(Fixed::from_int(WAVE_WIDTH)) {
            self.color.with_alpha(
                spec_falloff_alpha(gap, Fixed::from_int(WAVE_WIDTH), self.color.a),
            )
        } else {
            old
        }
    }

    fn shade(&self, old: Color, x: u32, y: u32) -> (c: Color) {
        let gap = self.gap(x, y);
        if gap.below(Fixed::from_int(WAVE_WIDTH)) {
            self.color.with_alpha(falloff_alpha(gap, Fixed::from_int(WAVE_WIDTH), self.color.a))
        } else {
            old
        }
    }
}

/// Particle effects.
pub struct Particles;

impl Particles {
    /// A transparent canvas with `count` twinkling stars whose places and
    /// brightness follow from `seed`, the index of the star and `time`.
#[verifier::rlimit(50)]
    pub fn sparkles(width: u32, height: u32, count: usize, time: Fixed, seed: u64) -> (img: Canvas)
        requires
            fits_memory(width as int, height as int),
        ensures
            img.spec_width() == width,
            img.spec_height() == height,
            forall|x: int, y: int|
                img.contains(x, y) ==> #[trigger] img.at(x, y) == (Sparkles {
                    width,
                    height,
                    count,
                    time,
                    seed,
                }).spec_after(Color::transparent(), x, y, count as nat),
    {
        let field = Sparkles { width, height, count, time, seed };
        let mut img = Canvas::new(width, height);
        let mut i: usize = 0;
        while i < count
            invariant
                i <= count,
                field == (Sparkles { width, height, count, time, seed }),
                img.spec_width() == width,
                img.spec_height() == height,
                forall|x: int, y: int|
                    img.contains(x, y) ==> #[trigger] img.at(x, y) == field.spec_after(
                        Color::transparent(),
                        x,
                        y,
                        i as nat,
                    ),
            decreases count - i,
        {
            let star = field.star(i);
            star.draw(&mut img);
            i = i + 1;
        }
        img
    }

    /// Draws a cross-shaped star of the given size around `(cx, cy)`.
    pub fn draw_star(img: &mut Canvas, cx: Fixed, cy: Fixed, size: Fixed, color: Color)
        ensures
            final(img).spec_width() == old(img).spec_width(),
            final(img).spec_height() == old(img).spec_height(),
            forall|x: int, y: int|
                final(img).contains(x, y) ==> #[trigger] final(img).at(x, y) == (Star {
                    x: cx.pixels(),
                    y: cy.pixels(),
                    size: size.pixels(),
                    color,
                }).spec_after(
                    old(img).at(x, y),
                    x,
                    y,
                    (Star { x: cx.pixels(), y: cy.pixels(), size: size.pixels(), color }).steps(),
                ),
    {
        let star = Star { x: cx.pixels(), y: cy.pixels(), size: size.pixels(), color };
        star.draw(img);
    }

    /// A transparent canvas with a ring of light that spreads from the
    /// middle as `time` runs.
    pub fn energy_wave(width: u32, height: u32, time: Fixed, color: Color) -> (img: Canvas)
        requires
            fits_memory(width as int, height as int),
        ensures
            img.spec_width() == width,
            img.spec_height() == height,
            forall|x: int, y: int|
                img.contains(x, y) ==> #[trigger] img.at(x, y) == (EnergyWave {
                    width,
                    height,
                    time,
                    color,
                }).spec_shade(Color::transparent(), x, y),
    {
        let mut img = Canvas::new(width, height);
        let rule = EnergyWave { width, height, time, color };
        img.paint(&rule);
        img
    }
}

/// One disc of glow of the radius `expand` around the point `(gx, gy)`.
pub struct GlowStamp {
    pub gx: i64,
    pub gy: i64,
    pub expand: i64,
    pub alpha: u8,
    pub color: Color,
}

/// Distance of the offset `(dx, dy)` from the origin, in pixels.
pub open spec fn spec_offset_dist(dx: int, dy: int) -> Fixed {
    Fixed::from_int(sat64(dx * dx + dy * dy) as i64).root()
}

proof fn lemma_offset_square(d: int)
    by (nonlinear_arith)
    requires
        -0x1_0000_0000 <= d <= 0x1_0000_0000,
    ensures
        0 <= d * d <= 0x1_0000_0000_0000_0000,
{
}

fn offset_dist(dx: i64, dy: i64) -> (d: Fixed)
    requires
        -0x1_0000_0000 <= dx <= 0x1_0000_0000,
        -0x1_0000_0000 <= dy <= 0x1_0000_0000,
    ensures
        d == spec_offset_dist(dx as int, dy as int),
{
    proof {
        lemma_offset_square(dx as int);
        lemma_offset_square(dy as int);
    }
    let sq: i128 = (dx as i128) * (dx as i128) + (dy as i128) * (dy as i128);
    let clipped: i64 = if sq > i64::MAX as i128 {
        i64::MAX
    } else {
        sq as i64
    };
    Fixed::from_int(clipped).root()
}

impl PixelRule for GlowStamp {
    /// A pixel within `expand` of the point gets the colour added with the
    /// alpha falling off linearly to the rim. A stamp of no radius adds
    /// nothing.
    open spec fn spec_shade(&self, old: Color, x: int, y: int) -> Color {
        let dx = x - self.gx;
        let dy = y - self.gy;
        if 0 < self.expand <= u32::MAX && -self.expand <= dx <= self.expand && -self.expand <= dy
            <= self.expand && spec_offset_dist(dx, dy).at_most(Fixed::from_int(self.expand)) {
            spec_blend_additive(
                old,
                self.color.with_alpha(
                    Fixed::from_int(self.alpha as i64).times(
                        Fixed::one().minus(
                            spec_offset_dist(dx, dy).over(Fixed::from_int(self.expand)),
                        ),
                    ).channel(),
                ),
            )
        } else {
            old
        }
    }

    fn shade(&self, old: Color, x: u32, y: u32) -> (c: Color) {
        if self.expand <= 0 || self.expand > u32::MAX as i64 {
            return old;
        }
        let e: i128 = self.expand as i128;
        let dx: i128 = x as i128 - self.gx as i128;
        let dy: i128 = y as i128 - self.gy as i128;
        if -e <= dx && dx <= e && -e <= dy && dy <= e {
            let dist = offset_dist(dx as i64, dy as i64);
            if dist.at_most(Fixed::from_int(self.expand)) {
                let a: u8 = Fixed::from_int(self.alpha as i64).times(
                    Fixed::one().minus(dist.over(Fixed::from_int(self.expand))),
                ).channel();
                return Color::blend_additive(old, self.color.with_alpha(a));
            }
        }
        old
    }
}

/// Alpha of the stamps of one layer of a glow: the glow alpha scaled by the
/// intensity, stronger for the inner layers.
pub open spec fn spec_glow_layer_alpha(full: u8, radius: u32, intensity: Fixed, layer: u32) -> u8 {
    Fixed::ratio(
        (if layer > radius {
            0
        } else {
            radius - layer
        }) as i64,
        radius as i64,
    ).times(intensity).times(Fixed::from_int(full as i64)).channel()
}

#[verifier::when_used_as_spec(spec_glow_layer_alpha)]
pub fn glow_layer_alpha(full: u8, radius: u32, intensity: Fixed, layer: u32) -> (a: u8)
    ensures
        a == spec_glow_layer_alpha(full, radius, intensity, layer),
{
    Fixed::ratio(
        (if layer > radius {
            0
        } else {
            radius - layer
        }) as i64,
        radius as i64,
    ).times(intensity).times(Fixed::from_int(full as i64)).channel()
}

/// A glow around the opaque pixels of an image of `width` × `height` that
/// is given by its pixels.
pub struct GlowModel {
    pub pixels: Map<(int, int), Color>,
    pub width: u32,
    pub height: u32,
    pub color: Color,
    pub radius: u32,
    pub intensity: Fixed,
}

impl GlowModel {
    /// The stamp that the source pixel `(sx, sy)` leaves in the given layer.
    pub open spec fn spec_stamp(&self, layer: u32, sx: int, sy: int) -> GlowStamp {
        GlowStamp {
            gx: (sx + self.radius) as i64,
            gy: (sy + self.radius) as i64,
            expand: layer as i64,
            alpha: spec_glow_layer_alpha(self.color.a, self.radius, self.intensity, layer),
            color: self.color,
        }
    }

    /// What the source pixel `(sx, sy)` makes of the pixel `(px, py)` in one
    /// layer: a stamp where the source is more than half opaque.
    pub open spec fn spec_cell(&self, acc: Color, px: int, py: int, layer: u32, sx: int, sy: int) -> Color {
        if self.pixels[(sx, sy)].a > 128 {
            self.spec_stamp(layer, sx, sy).spec_shade(acc, px, py)
        } else {
            acc
        }
    }

    /// What the first `n` source pixels of the row `sy` make of `(px, py)`.
    pub open spec fn spec_cols(&self, acc: Color, px: int, py: int, layer: u32, sy: int, n: nat) -> Color
        decreases n,
    {
        if n == 0 {
            acc
        } else {
            self.spec_cell(
                self.spec_cols(acc, px, py, layer, sy, (n - 1) as nat),
                px,
                py,
                layer,
                n - 1,
                sy,
            )
        }
    }

    /// What the first `n` source rows make of `(px, py)` in one layer.
    pub open spec fn spec_rows(&self, acc: Color, px: int, py: int, layer: u32, n: nat) -> Color
        decreases n,
    {
        if n == 0 {
            acc
        } else {
            self.spec_cols(
                self.spec_rows(acc, px, py, layer, (n - 1) as nat),
                px,
                py,
                layer,
                n - 1,
                self.width as nat,
            )
        }
    }

    /// What the first `n` layers make of `(px, py)`.
    pub open spec fn spec_layers(&self, acc: Color, px: int, py: int, n: nat) -> Color
        decreases n,
    {
        if n == 0 || n > u32::MAX {
            acc
        } else {
            self.spec_rows(
                self.spec_layers(acc, px, py, (n - 1) as nat),
                px,
                py,
                (n - 1) as u32,
                self.height as nat,
            )
        }
    }

    /// The finished pixel `(px, py)`: the glow of all layers with the source
    /// image composited on top, moved in by the radius.
    pub open spec fn spec_pixel(&self, px: int, py: int) -> Color {
        spec_laid_over(
            self.pixels,
            self.width,
            self.height,
            self.radius as int,
            self.radius as int,
            Fixed::one(),
            self.spec_layers(Color::transparent(), px, py, self.radius as nat),
            px,
            py,
        )
    }
}

impl GlowModel {
    /// The pixel `(px, py)` lies at least the radius of the glow, in columns
    /// or in rows, from every source pixel that is more than half opaque.
    pub open spec fn far_from_source(&self, px: int, py: int) -> bool {
        forall|sx: int, sy: int|
            0 <= sx < self.width && 0 <= sy < self.height && (#[trigger] self.pixels[(sx, sy)]).a
                > 128 ==> px - (sx + self.radius) >= self.radius || (sx + self.radius) - px
                >= self.radius || py - (sy + self.radius) >= self.radius || (sy + self.radius)
                - py >= self.radius
    }
}

proof fn lemma_glow_far_cols(g: GlowModel, acc: Color, px: int, py: int, layer: u32, sy: int, n: nat)
    requires
        g.far_from_source(px, py),
        layer < g.radius,
        0 <= sy < g.height,
        n <= g.width,
    ensures
        g.spec_cols(acc, px, py, layer, sy, n) == acc,
    decreases n,
{
    if n > 0 {
        lemma_glow_far_cols(g, acc, px, py, layer, sy, (n - 1) as nat);
        let sx = n - 1;
        if g.pixels[(sx, sy)].a > 128 {
            let stamp = g.spec_stamp(layer, sx, sy);
            assert(stamp.gx == sx + g.radius && stamp.gy == sy + g.radius);
            assert(stamp.expand == layer);
        }
    }
}

proof fn lemma_glow_far_rows(g: GlowModel, acc: Color, px: int, py: int, layer: u32, n: nat)
    requires
        g.far_from_source(px, py),
        layer < g.radius,
        n <= g.height,
    ensures
        g.spec_rows(acc, px, py, layer, n) == acc,
    decreases n,
{
    if n > 0 {
        lemma_glow_far_rows(g, acc, px, py, layer, (n - 1) as nat);
        lemma_glow_far_cols(g, acc, px, py, layer, n - 1, g.width as nat);
    }
}

/// Glow does not reach beyond its radius: a pixel that lies at least the
/// radius from every source pixel that is more than half opaque gets none
/// from any layer, and where the source image has no pixel over it either,
/// it stays transparent.
pub proof fn lemma_glow_stays_within_radius(g: GlowModel, acc: Color, px: int, py: int, n: nat)
    requires
        g.far_from_source(px, py),
        n <= g.radius,
    ensures
        g.spec_layers(acc, px, py, n) == acc,
        n == g.radius && !(0 <= px - g.radius < g.width && 0 <= py - g.radius < g.height)
            ==> g.spec_pixel(px, py) == Color::transparent(),
    decreases n,
{
    if n > 0 {
        lemma_glow_stays_within_radius(g, acc, px, py, (n - 1) as nat);
        lemma_glow_far_rows(g, acc, px, py, (n - 1) as u32, g.height as nat);
    }
    if n == g.radius {
        lemma_glow_layers_from_blank(g, px, py, n);
    }
}

proof fn lemma_glow_layers_from_blank(g: GlowModel, px: int, py: int, n: nat)
    requires
        g.far_from_source(px, py),
        n <= g.radius,
    ensures
        g.spec_layers(Color::transparent(), px, py, n) == Color::transparent(),
    decreases n,
{
    if n > 0 {
        lemma_glow_layers_from_blank(g, px, py, (n - 1) as nat);
        lemma_glow_far_rows(g, Color::transparent(), px, py, (n - 1) as u32, g.height as nat);
    }
}

impl GlowModel {
    /// The pixel `(px, py)` lies at least the radius of the glow, as the
    /// crow flies, from every source pixel that is more than half opaque.
    pub open spec fn beyond_reach(&self, px: int, py: int) -> bool {
        forall|sx: int, sy: int|
            0 <= sx < self.width && 0 <= sy < self.height && (#[trigger] self.pixels[(sx, sy)]).a
                > 128 ==> (px - sx - self.radius) * (px - sx - self.radius) + (py - sy
                - self.radius) * (py - sy - self.radius) >= self.radius * self.radius
    }
}

/// The largest radius of a glow for which the distance of a pixel from its
/// stamps is worked out without saturating.
pub const GLOW_EXACT: u32 = 2_000_000;

proof fn lemma_stamp_misses(stamp: GlowStamp, acc: Color, px: int, py: int, r: int)
    requires
        0 <= stamp.expand < r <= GLOW_EXACT,
        (px - stamp.gx) * (px - stamp.gx) + (py - stamp.gy) * (py - stamp.gy) >= r * r,
    ensures
        stamp.spec_shade(acc, px, py) == acc,
{
    let dx = px - stamp.gx;
    let dy = py - stamp.gy;
    let e = stamp.expand as int;
    if 0 < e && -e <= dx <= e && -e <= dy <= e {
        let n = dx * dx + dy * dy;
        assert(0 <= dx * dx <= e * e && 0 <= dy * dy <= e * e) by (nonlinear_arith)
            requires
                -e <= dx <= e,
                -e <= dy <= e,
        ;
        assert(e * e <= 4_000_000_000_000 && r * r <= 4_000_000_000_000) by (nonlinear_arith)
            requires
                0 <= e < r <= 2_000_000,
        ;
        assert(0 < n * SCALE <= 8_000_000_000_000 * SCALE && (r * SCALE) * (r * SCALE) <= (n
            * SCALE) * SCALE && r * SCALE > e * SCALE && e * SCALE <= 2_000_000 * SCALE)
            by (nonlinear_arith)
            requires
                r * r <= n <= 8_000_000_000_000,
                0 <= e < r,
                r <= 2_000_000,
                SCALE == 1_000_000,
        ;
        lemma_fx_sqrt_at_least(n * SCALE, r * SCALE);
        lemma_fx_sqrt_fits(n * SCALE);
        assert(spec_offset_dist(dx, dy).raw == fx_sqrt(n * SCALE));
        assert(Fixed::from_int(e as i64).raw == e * SCALE);
    }
}

proof fn lemma_glow_beyond_cols(g: GlowModel, acc: Color, px: int, py: int, layer: u32, sy: int, n: nat)
    requires
        g.beyond_reach(px, py),
        layer < g.radius <= GLOW_EXACT,
        0 <= sy < g.height,
        n <= g.width,
    ensures
        g.spec_cols(acc, px, py, layer, sy, n) == acc,
    decreases n,
{
    if n > 0 {
        lemma_glow_beyond_cols(g, acc, px, py, layer, sy, (n - 1) as nat);
        let sx = n - 1;
        if g.pixels[(sx, sy)].a > 128 {
            let stamp = g.spec_stamp(layer, sx, sy);
            assert(stamp.gx == sx + g.radius && stamp.gy == sy + g.radius);
            assert(px - stamp.gx == px - sx - g.radius && py - stamp.gy == py - sy - g.radius);
            lemma_stamp_misses(stamp, acc, px, py, g.radius as int);
        }
    }
}

proof fn lemma_glow_beyond_rows(g: GlowModel, acc: Color, px: int, py: int, layer: u32, n: nat)
    requires
        g.beyond_reach(px, py),
        layer < g.radius <= GLOW_EXACT,
        n <= g.height,
    ensures
        g.spec_rows(acc, px, py, layer, n) == acc,
    decreases n,
{
    if n > 0 {
        lemma_glow_beyond_rows(g, acc, px, py, layer, (n - 1) as nat);
        lemma_glow_beyond_cols(g, acc, px, py, layer, n - 1, g.width as nat);
    }
}

/// Glow is round: for a radius of at most two million pixels, a pixel that
/// lies at least the radius, as the crow flies, from every source pixel that
/// is more than half opaque gets no glow from any layer.
pub proof fn lemma_glow_is_round(g: GlowModel, acc: Color, px: int, py: int, n: nat)
    requires
        g.beyond_reach(px, py),
        n <= g.radius <= GLOW_EXACT,
    ensures
        g.spec_layers(acc, px, py, n) == acc,
    decreases n,
{
    if n > 0 {
        lemma_glow_is_round(g, acc, px, py, (n - 1) as nat);
        lemma_glow_beyond_rows(g, acc, px, py, (n - 1) as u32, g.height as nat);
    }
}

/// Glow effect for images and text.
pub struct Glow;

impl Glow {
    /// A canvas padded by `radius` on each side that holds a halo in
    /// `glow_color` around every source pixel that is more than half opaque,
    /// built from `radius` layers of additive discs, with the source image
    /// on top.
#[verifier::rlimit(50)]
    pub fn apply(img: &Canvas, glow_color: Color, radius: u32, intensity: Fixed) -> (out: Canvas)
        requires
            radius <= i32::MAX,
            img.spec_width() + 2 * radius <= u32::MAX,
            img.spec_height() + 2 * radius <= u32::MAX,
            fits_memory(img.spec_width() + 2 * radius, img.spec_height() + 2 * radius),
        ensures
            out.spec_width() == img.spec_width() + 2 * radius,
            out.spec_height() == img.spec_height() + 2 * radius,
            forall|x: int, y: int|
                out.contains(x, y) ==> #[trigger] out.at(x, y) == (GlowModel {
                    pixels: img.view(),
                    width: img.spec_width(),
                    height: img.spec_height(),
                    color: glow_color,
                    radius,
                    intensity,
                }).spec_pixel(x, y),
    {
        let ghost params = GlowModel {
            pixels: img.view(),
            width: img.spec_width(),
            height: img.spec_height(),
            color: glow_color,
            radius,
            intensity,
        };
        let w: u32 = img.width();
        let h: u32 = img.height();
        let mut out = Canvas::new(w + 2 * radius, h + 2 * radius);
        let mut layer: u32 = 0;
        while layer < radius
            invariant
                layer <= radius <= i32::MAX,
                params == (GlowModel {
                    pixels: img.view(),
                    width: img.spec_width(),
                    height: img.spec_height(),
                    color: glow_color,
                    radius,
                    intensity,
                }),
                w == img.spec_width(),
                h == img.spec_height(),
                w + 2 * radius <= u32::MAX,
                h + 2 * radius <= u32::MAX,
                out.spec_width() == w + 2 * radius,
                out.spec_height() == h + 2 * radius,
                forall|x: int, y: int|
                    out.contains(x, y) ==> #[trigger] out.at(x, y) == params.spec_layers(
                        Color::transparent(),
                        x,
                        y,
                        layer as nat,
                    ),
            decreases radius - layer,
        {
            let alpha: u8 = glow_layer_alpha(glow_color.a, radius, intensity, layer);
            let ghost before_layer = out;
            let mut sy: u32 = 0;
            while sy < h
                invariant
                    sy <= h,
                    layer < radius <= i32::MAX,
                    params == (GlowModel {
                    pixels: img.view(),
                    width: img.spec_width(),
                    height: img.spec_height(),
                    color: glow_color,
                    radius,
                    intensity,
                }),
                    alpha == spec_glow_layer_alpha(glow_color.a, radius, intensity, layer),
                    w == img.spec_width(),
                    h == img.spec_height(),
                    w + 2 * radius <= u32::MAX,
                    h + 2 * radius <= u32::MAX,
                    out.spec_width() == w + 2 * radius,
                    out.spec_height() == h + 2 * radius,
                    forall|x: int, y: int|
                        out.contains(x, y) ==> #[trigger] out.at(x, y) == params.spec_rows(
                            params.spec_layers(Color::transparent(), x, y, layer as nat),
                            x,
                            y,
                            layer,
                            sy as nat,
                        ),
                decreases h - sy,
            {
                let mut sx: u32 = 0;
                while sx < w
                    invariant
                        sx <= w,
                        sy < h,
                        layer < radius <= i32::MAX,
                        params == (GlowModel {
                            pixels: img.view(),
                            width: img.spec_width(),
                            height: img.spec_height(),
                            color: glow_color,
                            radius,
                            intensity,
                        }),
                        alpha == spec_glow_layer_alpha(glow_color.a, radius, intensity, layer),
                        w == img.spec_width(),
                        h == img.spec_height(),
                        w + 2 * radius <= u32::MAX,
                        h + 2 * radius <= u32::MAX,
                        out.spec_width() == w + 2 * radius,
                        out.spec_height() == h + 2 * radius,
                        forall|x: int, y: int|
                            out.contains(x, y) ==> #[trigger] out.at(x, y) == params.spec_cols(
                                params.spec_rows(
                                    params.spec_layers(Color::transparent(), x, y, layer as nat),
                                    x,
                                    y,
                                    layer,
                                    sy as nat,
                                ),
                                x,
                                y,
                                layer,
                                sy as int,
                                sx as nat,
                            ),
                    decreases w - sx,
                {
                    let source_pixel = img.get_pixel(sx, sy);
                    if source_pixel.a > 128 {
                        let stamp = GlowStamp {
                            gx: sx as i64 + radius as i64,
                            gy: sy as i64 + radius as i64,
                            expand: layer as i64,
                            alpha,
                            color: glow_color,
                        };
                        let gx: u32 = sx + radius;
                        let gy: u32 = sy + radius;
                        out.paint_region(
                            &stamp,
                            gx - layer,
                            gy - layer,
                            gx + layer + 1,
                            gy + layer + 1,
                        );
                    }
                    sx = sx + 1;
                }
                sy = sy + 1;
            }
            layer = layer + 1;
        }
        out.composite(img, radius as i32, radius as i32);
        out
    }
}

} // verus!
