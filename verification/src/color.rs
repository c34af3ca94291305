//! Colours and the pixel-level blending rules.

use vstd::prelude::*;
use crate::fixed::{clamp_int, Fixed, SCALE};

verus! {

/// A colour with straight (not premultiplied) alpha, eight bits a channel.
#[derive(Clone, Copy, Debug, PartialEq, Eq, Structural)]
pub struct Color {
    pub r: u8,
    pub g: u8,
    pub b: u8,
    pub a: u8,
}

/// Weight of the blended pixel in units of 1/65025: `oa * 255 * 255` for
/// `oa = sa + da * (1 - sa)` with both alphas taken as fractions of 255.
pub open spec fn over_weight(sa: int, da: int) -> int {
    255 * sa + da * (255 - sa)
}

/// One colour channel of source-over compositing, rounded down.
pub open spec fn over_channel(s: int, d: int, sa: int, da: int) -> int {
    (255 * s * sa + d * da * (255 - sa)) / over_weight(sa, da)
}

/// Source-over compositing of `src` onto `dest`.
pub open spec fn spec_blend_over(src: Color, dest: Color) -> Color {
    if src.a == 0 && dest.a == 0 {
        Color { r: 0, g: 0, b: 0, a: 0 }
    } else {
        Color {
            r: over_channel(src.r as int, dest.r as int, src.a as int, dest.a as int) as u8,
            g: over_channel(src.g as int, dest.g as int, src.a as int, dest.a as int) as u8,
            b: over_channel(src.b as int, dest.b as int, src.a as int, dest.a as int) as u8,
            a: (over_weight(src.a as int, dest.a as int) / 255) as u8,
        }
    }
}

/// Source-over compositing that skips a fully transparent source, so that
/// drawing nothing never disturbs what is there.
pub open spec fn spec_paint_over(src: Color, dest: Color) -> Color {
    if src.a == 0 {
        dest
    } else {
        spec_blend_over(src, dest)
    }
}

/// Weight of a source pixel of the alpha `sa` whose layer keeps the raw
/// fraction `t` of its alpha, in units of 1/(255 · SCALE): the effective
/// alpha of the pixel as a fraction is this over `255 · SCALE`.
pub open spec fn faded_weight(sa: int, t: int) -> int {
    sa * clamp_int(t, 0, SCALE as int)
}

/// One colour channel of source-over compositing with the effective source
/// alpha `a / (255 · SCALE)`, rounded down.
pub open spec fn faded_channel(s: int, d: int, a: int, da: int) -> int {
    (255 * (s * a) + (d * da) * (255 * SCALE - a)) / (255 * a + da * (255 * SCALE - a))
}

/// Source-over compositing of `src` onto `dest` where the alpha of the
/// source is scaled by `t`, clamped into `0 ..= 1`: with the effective alpha
/// `sa = src.a / 255 · t`, a source whose effective alpha is zero leaves
/// `dest` as it is, and any other is blended over it by the rule of
/// `spec_blend_over`, with no rounding of the effective alpha.
pub open spec fn spec_blend_faded(src: Color, dest: Color, t: Fixed) -> Color {
    let a = faded_weight(src.a as int, t.raw as int);
    if a == 0 {
        dest
    } else {
        Color {
            r: faded_channel(src.r as int, dest.r as int, a, dest.a as int) as u8,
            g: faded_channel(src.g as int, dest.g as int, a, dest.a as int) as u8,
            b: faded_channel(src.b as int, dest.b as int, a, dest.a as int) as u8,
            a: ((255 * a + dest.a * (255 * SCALE - a)) / (255 * SCALE)) as u8,
        }
    }
}

/// A faded channel is a colour channel again, and none of its terms
/// overflows.
pub proof fn lemma_faded_channel_bounds(s: int, d: int, a: int, da: int)
    requires
        0 <= s <= 255,
        0 <= d <= 255,
        0 < a <= 255 * SCALE,
        0 <= da <= 255,
    ensures
        0 <= s * a <= 255 * (255 * SCALE),
        0 <= d * da <= 255 * 255,
        0 <= (d * da) * (255 * SCALE - a) <= 255 * 255 * (255 * SCALE),
        0 <= da * (255 * SCALE - a) <= 255 * (255 * SCALE),
        0 < 255 * a + da * (255 * SCALE - a) <= 255 * (255 * SCALE),
        0 <= faded_channel(s, d, a, da) <= 255,
        0 <= (255 * a + da * (255 * SCALE - a)) / (255 * SCALE) <= 255,
{
    let rest = 255 * SCALE - a;
    let w = 255 * a + da * rest;
    let n = 255 * (s * a) + (d * da) * rest;
    assert(0 <= s * a <= 255 * a) by (nonlinear_arith)
        requires
            0 <= s <= 255,
            0 < a,
    ;
    assert(0 <= d * da <= 255 * da && d * da <= 255 * 255) by (nonlinear_arith)
        requires
            0 <= d <= 255,
            0 <= da <= 255,
    ;
    assert(0 <= da * rest <= 255 * rest) by (nonlinear_arith)
        requires
            0 <= da <= 255,
            0 <= rest,
    ;
    assert(0 <= (d * da) * rest <= 255 * (da * rest)) by (nonlinear_arith)
        requires
            0 <= d * da <= 255 * da,
            0 <= rest,
            0 <= da,
    ;
    assert(0 <= n <= 255 * w);
    assert(0 <= n / w <= 255) by (nonlinear_arith)
        requires
            0 <= n <= 255 * w,
            w > 0,
    ;
    assert(w <= 255 * (255 * SCALE));
    assert(0 <= w / (255 * SCALE) <= 255) by (nonlinear_arith)
        requires
            0 < w <= 255 * (255 * SCALE),
            SCALE == 1_000_000,
    ;
}

/// A layer that keeps all of its alpha is composited by plain source-over.
pub proof fn lemma_blend_faded_whole(src: Color, dest: Color)
    ensures
        spec_blend_faded(src, dest, Fixed::one()) == spec_paint_over(src, dest),
{
    if src.a > 0 {
        let sa = src.a as int;
        let da = dest.a as int;
        let a = sa * SCALE;
        assert(faded_weight(sa, SCALE as int) == a);
        let w0 = over_weight(sa, da);
        lemma_over_channel_bounds(0, 0, sa, da);
        assert(255 * a + da * (255 * SCALE - a) == w0 * SCALE) by (nonlinear_arith)
            requires
                a == sa * SCALE,
                w0 == 255 * sa + da * (255 - sa),
        ;
        assert((w0 * SCALE) / (255 * SCALE) == w0 / 255) by (nonlinear_arith)
            requires
                w0 > 0,
                SCALE == 1_000_000,
        ;
        assert forall|s: int, d: int| 0 <= s <= 255 && 0 <= d <= 255 implies #[trigger] faded_channel(
            s,
            d,
            a,
            da,
        ) == over_channel(s, d, sa, da) by {
            let n0 = 255 * s * sa + d * da * (255 - sa);
            assert(255 * (s * a) + (d * da) * (255 * SCALE - a) == n0 * SCALE) by (nonlinear_arith)
                requires
                    a == sa * SCALE,
                    n0 == 255 * s * sa + d * da * (255 - sa),
            ;
            assert((n0 * SCALE) / (w0 * SCALE) == n0 / w0) by (nonlinear_arith)
                requires
                    w0 > 0,
                    SCALE == 1_000_000,
            ;
        }
    } else {
        assert(0 * (SCALE as int) == 0);
    }
}

/// A fully transparent source changes nothing, however much of its alpha its
/// layer keeps.
pub proof fn lemma_blend_faded_transparent(src: Color, dest: Color, t: Fixed)
    requires
        src.a == 0,
    ensures
        spec_blend_faded(src, dest, t) == dest,
{
    assert(0 * clamp_int(t.raw as int, 0, SCALE as int) == 0) by (nonlinear_arith);
}

/// One colour channel of additive blending: the base plus the added channel
/// weighted by the added alpha, capped at 255.
pub open spec fn additive_channel(base: int, add: int, alpha: int) -> int {
    clamp_int(base + (add * alpha) / 255, 0, 255)
}

/// Additive blending of `add` onto `base`. The alpha of the result is the
/// larger of the base alpha and half the added alpha, so an opaque base stays
/// opaque and a blank one picks up a soft edge.
pub open spec fn spec_blend_additive(base: Color, add: Color) -> Color {
    Color {
        r: additive_channel(base.r as int, add.r as int, add.a as int) as u8,
        g: additive_channel(base.g as int, add.g as int, add.a as int) as u8,
        b: additive_channel(base.b as int, add.b as int, add.a as int) as u8,
        a: if base.a as int >= add.a as int / 2 {
            base.a
        } else {
            (add.a as int / 2) as u8
        },
    }
}

/// One channel of the linear interpolation from `a` to `b` at the raw
/// fraction `t` in `0 ..= SCALE`, rounded down.
pub open spec fn lerp_channel(a: int, b: int, t: int) -> int {
    (a * (SCALE - t) + b * t) / (SCALE as int)
}

/// Linear interpolation from `a` to `b`, with `t` clamped into `0 ..= 1`.
pub open spec fn spec_lerp_color(a: Color, b: Color, t: Fixed) -> Color {
    let u = t.unit().raw as int;
    Color {
        r: lerp_channel(a.r as int, b.r as int, u) as u8,
        g: lerp_channel(a.g as int, b.g as int, u) as u8,
        b: lerp_channel(a.b as int, b.b as int, u) as u8,
        a: lerp_channel(a.a as int, b.a as int, u) as u8,
    }
}

/// A source-over channel is a colour channel again.
pub proof fn lemma_over_channel_bounds(s: int, d: int, sa: int, da: int)
    requires
        0 <= s <= 255,
        0 <= d <= 255,
        0 <= sa <= 255,
        0 <= da <= 255,
        sa > 0 || da > 0,
    ensures
        over_weight(sa, da) > 0,
        0 <= over_channel(s, d, sa, da) <= 255,
        0 <= 255 * s * sa + d * da * (255 - sa) <= 255 * over_weight(sa, da),
        over_weight(sa, da) <= 65025,
        0 <= over_weight(sa, da) / 255 <= 255,
{
    let w = over_weight(sa, da);
    let n = 255 * s * sa + d * da * (255 - sa);
    assert(0 <= da * (255 - sa) <= 255 * (255 - sa)) by (nonlinear_arith)
        requires
            0 <= da <= 255,
            0 <= sa <= 255,
    ;
    assert(w > 0) by (nonlinear_arith)
        requires
            w == 255 * sa + da * (255 - sa),
            0 <= sa <= 255,
            0 <= da <= 255,
            sa > 0 || da > 0,
    ;
    assert(0 <= n <= 255 * w) by (nonlinear_arith)
        requires
            n == 255 * s * sa + d * da * (255 - sa),
            w == 255 * sa + da * (255 - sa),
            0 <= s <= 255,
            0 <= d <= 255,
            0 <= sa <= 255,
            0 <= da <= 255,
    ;
    assert(0 <= n / w <= 255) by (nonlinear_arith)
        requires
            0 <= n <= 255 * w,
            w > 0,
    ;
}

/// An interpolated channel is a colour channel again.
pub proof fn lemma_lerp_channel_bounds(a: int, b: int, t: int)
    requires
        0 <= a <= 255,
        0 <= b <= 255,
        0 <= t <= SCALE,
    ensures
        0 <= a * (SCALE - t) + b * t <= 255 * SCALE,
        0 <= lerp_channel(a, b, t) <= 255,
{
    assert(0 <= a * (SCALE - t) + b * t <= 255 * SCALE) by (nonlinear_arith)
        requires
            0 <= a <= 255,
            0 <= b <= 255,
            0 <= t <= SCALE,
            SCALE == 1_000_000,
    ;
}

fn blend_over_channel(s: u8, d: u8, sa: u8, da: u8) -> (c: u8)
    requires
        sa > 0 || da > 0,
    ensures
        c as int == over_channel(s as int, d as int, sa as int, da as int),
{
    proof {
        lemma_over_channel_bounds(s as int, d as int, sa as int, da as int);
        assert(255 * (s as int) * (sa as int) <= 255 * 255 * 255) by (nonlinear_arith)
            requires
                0 <= s <= 255,
                0 <= sa <= 255,
        ;
        assert((d as int) * (da as int) <= 255 * 255) by (nonlinear_arith)
            requires
                0 <= d <= 255,
                0 <= da <= 255,
        ;
        assert((d as int) * (da as int) * (255 - sa as int) <= 255 * 255 * 255) by (nonlinear_arith)
            requires
                0 <= (d as int) * (da as int) <= 255 * 255,
                0 <= sa <= 255,
        ;
        assert((da as int) * (255 - sa as int) <= 255 * 255) by (nonlinear_arith)
            requires
                0 <= da <= 255,
                0 <= sa <= 255,
        ;
    }
    let inv: u32 = 255 - sa as u32;
    let weight: u32 = 255 * (sa as u32) + (da as u32) * inv;
    let num: u32 = 255 * (s as u32) * (sa as u32) + (d as u32) * (da as u32) * inv;
    (num / weight) as u8
}

fn blend_additive_channel(base: u8, add: u8, alpha: u8) -> (c: u8)
    ensures
        c as int == additive_channel(base as int, add as int, alpha as int),
{
    proof {
        assert(0 <= (add as int) * (alpha as int) <= 255 * 255) by (nonlinear_arith)
            requires
                0 <= add <= 255,
                0 <= alpha <= 255,
        ;
    }
    let sum: u32 = base as u32 + ((add as u32) * (alpha as u32)) / 255;
    if sum > 255 {
        255
    } else {
        sum as u8
    }
}

fn lerp_channel_exec(a: u8, b: u8, t: i64) -> (c: u8)
    requires
        0 <= t <= SCALE,
    ensures
        c as int == lerp_channel(a as int, b as int, t as int),
{
    proof {
        lemma_lerp_channel_bounds(a as int, b as int, t as int);
        assert(0 <= (a as int) * (SCALE - t) <= 255 * SCALE) by (nonlinear_arith)
            requires
                0 <= a <= 255,
                0 <= t <= SCALE,
                SCALE == 1_000_000,
        ;
        assert(0 <= (b as int) * t <= 255 * SCALE) by (nonlinear_arith)
            requires
                0 <= b <= 255,
                0 <= t <= SCALE,
                SCALE == 1_000_000,
        ;
    }
    let num: i64 = (a as i64) * (SCALE - t) + (b as i64) * t;
    (num / SCALE) as u8
}

impl Color {
    pub open spec fn spec_rgba(r: u8, g: u8, b: u8, a: u8) -> Color {
        Color { r, g, b, a }
    }

    /// The colour with the four channels given.
    #[verifier::when_used_as_spec(spec_rgba)]
    pub fn rgba(r: u8, g: u8, b: u8, a: u8) -> (c: Color)
        ensures
            c == Color::spec_rgba(r, g, b, a),
    {
        Color { r, g, b, a }
    }

    pub open spec fn spec_transparent() -> Color {
        Color { r: 0, g: 0, b: 0, a: 0 }
    }

    /// Fully transparent black, the value of every pixel of a blank image.
    #[verifier::when_used_as_spec(spec_transparent)]
    pub fn transparent() -> (c: Color)
        ensures
            c == Color::spec_transparent(),
    {
        Color { r: 0, g: 0, b: 0, a: 0 }
    }

    pub open spec fn spec_with_alpha(self, a: u8) -> Color {
        Color { r: self.r, g: self.g, b: self.b, a }
    }

    /// The same colour with another alpha.
    #[verifier::when_used_as_spec(spec_with_alpha)]
    pub fn with_alpha(self, a: u8) -> (c: Color)
        ensures
            c == self.spec_with_alpha(a),
    {
        Color { r: self.r, g: self.g, b: self.b, a }
    }

    /// Source-over compositing of `src` onto `dest`: with the alphas as
    /// fractions, the result has alpha `oa = sa + da * (1 - sa)` and each
    /// channel `(src * sa + dest * da * (1 - sa)) / oa`, both rounded down;
    /// where `oa` is zero the result is transparent black.
    #[verifier::inline]
    pub open spec fn spec_blend_over(src: Color, dest: Color) -> Color {
        spec_blend_over(src, dest)
    }

    #[verifier::when_used_as_spec(spec_blend_over)]
    pub fn blend_over(src: Color, dest: Color) -> (out: Color)
        ensures
            out == spec_blend_over(src, dest),
    {
        if src.a == 0 && dest.a == 0 {
            return Color { r: 0, g: 0, b: 0, a: 0 };
        }
        proof {
            lemma_over_channel_bounds(0, 0, src.a as int, dest.a as int);
            assert((dest.a as int) * (255 - src.a as int) <= 255 * 255) by (nonlinear_arith)
                requires
                    0 <= dest.a <= 255,
                    0 <= src.a <= 255,
            ;
        }
        let weight: u32 = 255 * (src.a as u32) + (dest.a as u32) * (255 - src.a as u32);
        Color {
            r: blend_over_channel(src.r, dest.r, src.a, dest.a),
            g: blend_over_channel(src.g, dest.g, src.a, dest.a),
            b: blend_over_channel(src.b, dest.b, src.a, dest.a),
            a: (weight / 255) as u8,
        }
    }

    /// Source-over compositing that leaves `dest` alone where `src` is fully
    /// transparent.
    #[verifier::inline]
    pub open spec fn spec_paint_over(src: Color, dest: Color) -> Color {
        spec_paint_over(src, dest)
    }

    #[verifier::when_used_as_spec(spec_paint_over)]
    pub fn paint_over(src: Color, dest: Color) -> (out: Color)
        ensures
            out == spec_paint_over(src, dest),
    {
        if src.a == 0 {
            dest
        } else {
            Color::blend_over(src, dest)
        }
    }

    #[verifier::inline]
    pub open spec fn spec_blend_faded(src: Color, dest: Color, t: Fixed) -> Color {
        spec_blend_faded(src, dest, t)
    }

    /// Source-over compositing of `src` onto `dest` with the alpha of the
    /// source scaled by `t`, clamped into `0 ..= 1`.
    #[verifier::when_used_as_spec(spec_blend_faded)]
    pub fn blend_faded(src: Color, dest: Color, t: Fixed) -> (out: Color)
        ensures
            out == spec_blend_faded(src, dest, t),
    {
        let u: i64 = t.unit().raw;
        assert(0 <= (src.a as int) * (u as int) <= 255 * SCALE) by (nonlinear_arith)
            requires
                0 <= src.a <= 255,
                0 <= u <= SCALE,
        ;
        let a: u64 = src.a as u64 * u as u64;
        if a == 0 {
            return dest;
        }
        proof {
            lemma_faded_channel_bounds(src.r as int, dest.r as int, a as int, dest.a as int);
            lemma_faded_channel_bounds(src.g as int, dest.g as int, a as int, dest.a as int);
            lemma_faded_channel_bounds(src.b as int, dest.b as int, a as int, dest.a as int);
        }
        let rest: u64 = 255_000_000 - a;
        let weight: u64 = 255 * a + dest.a as u64 * rest;
        Color {
            r: ((255 * (src.r as u64 * a) + (dest.r as u64 * dest.a as u64) * rest) / weight) as u8,
            g: ((255 * (src.g as u64 * a) + (dest.g as u64 * dest.a as u64) * rest) / weight) as u8,
            b: ((255 * (src.b as u64 * a) + (dest.b as u64 * dest.a as u64) * rest) / weight) as u8,
            a: (weight / 255_000_000) as u8,
        }
    }

    /// Additive blending of `add` onto `base`.
    #[verifier::inline]
    pub open spec fn spec_blend_additive(base: Color, add: Color) -> Color {
        spec_blend_additive(base, add)
    }

    #[verifier::when_used_as_spec(spec_blend_additive)]
    pub fn blend_additive(base: Color, add: Color) -> (out: Color)
        ensures
            out == spec_blend_additive(base, add),
    {
        let half: u8 = add.a / 2;
        Color {
            r: blend_additive_channel(base.r, add.r, add.a),
            g: blend_additive_channel(base.g, add.g, add.a),
            b: blend_additive_channel(base.b, add.b, add.a),
            a: if base.a >= half {
                base.a
            } else {
                half
            },
        }
    }

    /// Linear interpolation from `a` to `b`, with `t` clamped into `0 ..= 1`.
    #[verifier::inline]
    pub open spec fn spec_lerp_color(a: Color, b: Color, t: Fixed) -> Color {
        spec_lerp_color(a, b, t)
    }

    #[verifier::when_used_as_spec(spec_lerp_color)]
    pub fn lerp_color(a: Color, b: Color, t: Fixed) -> (out: Color)
        ensures
            out == spec_lerp_color(a, b, t),
    {
        let u: i64 = t.unit().raw;
        Color {
            r: lerp_channel_exec(a.r, b.r, u),
            g: lerp_channel_exec(a.g, b.g, u),
            b: lerp_channel_exec(a.b, b.b, u),
            a: lerp_channel_exec(a.a, b.a, u),
        }
    }
}

/// A fully transparent source leaves the destination as it is. A destination
/// that is itself fully transparent comes out as transparent black, so the
/// statement holds of it only where it is transparent black already.
pub proof fn lemma_blend_over_transparent_source(src: Color, dest: Color)
    requires
        src.a == 0,
        dest.a > 0 || dest == Color::transparent(),
    ensures
        spec_blend_over(src, dest) == dest,
{
    if dest.a > 0 {
        let k = 255 * dest.a as int;
        assert forall|d: int| 0 <= d <= 255 implies #[trigger] over_channel(
            0,
            d,
            0,
            dest.a as int,
        ) == d by {
            assert((d * (dest.a as int) * 255) / k == d) by (nonlinear_arith)
                requires
                    k == 255 * dest.a as int,
                    dest.a > 0,
            ;
        }
        assert(over_channel(src.r as int, dest.r as int, 0, dest.a as int) == over_channel(
            0,
            dest.r as int,
            0,
            dest.a as int,
        ));
        assert(over_channel(src.g as int, dest.g as int, 0, dest.a as int) == over_channel(
            0,
            dest.g as int,
            0,
            dest.a as int,
        ));
        assert(over_channel(src.b as int, dest.b as int, 0, dest.a as int) == over_channel(
            0,
            dest.b as int,
            0,
            dest.a as int,
        ));
    }
}

/// A fully opaque source replaces the destination, whatever it held.
pub proof fn lemma_blend_over_opaque_source(src: Color, dest: Color)
    requires
        src.a == 255,
    ensures
        spec_blend_over(src, dest) == src,
{
    assert forall|s: int, d: int| 0 <= s <= 255 implies #[trigger] over_channel(
        s,
        d,
        255,
        dest.a as int,
    ) == s by {
        assert((255 * s * 255 + d * (dest.a as int) * 0) / 65025 == s) by (nonlinear_arith);
    }
}

/// Interpolation starts at the first colour and ends at the second.
pub proof fn lemma_lerp_color_endpoints(a: Color, b: Color)
    ensures
        spec_lerp_color(a, b, Fixed::zero()) == a,
        spec_lerp_color(a, b, Fixed::one()) == b,
{
    assert forall|x: int, y: int| 0 <= x <= 255 && 0 <= y <= 255 implies #[trigger] lerp_channel(
        x,
        y,
        0,
    ) == x by {
        assert((x * (SCALE - 0) + y * 0) / (SCALE as int) == x) by (nonlinear_arith)
            requires
                SCALE == 1_000_000,
        ;
    }
    assert forall|x: int, y: int| 0 <= x <= 255 && 0 <= y <= 255 implies #[trigger] lerp_channel(
        x,
        y,
        SCALE as int,
    ) == y by {
        assert((x * (SCALE - SCALE) + y * SCALE) / (SCALE as int) == y) by (nonlinear_arith)
            requires
                SCALE == 1_000_000,
        ;
    }
}

} // verus!
