//! The shape rasterizer: each shape is a rule for one pixel, applied over a
//! window of the canvas.

use vstd::prelude::*;
use crate::canvas::{clip_coord, Canvas, PixelRule};
use crate::color::{spec_blend_additive, spec_paint_over, Color};
use crate::fixed::{
    fx_add, fx_div, fx_mul, fx_sqrt, lemma_div_trunc_at_least,
    lemma_fx_div_fits, lemma_fx_sqrt_at_least, lemma_fx_sqrt_fits,
    lemma_fx_square_nonnegative, Fixed, SCALE,
};

verus! {

/// Whether the point `(px, py)` lies within `radius` of the centre `(cx, cy)`.
pub open spec fn within_radius(px: int, py: int, cx: int, cy: int, radius: int) -> bool {
    (px - cx) * (px - cx) + (py - cy) * (py - cy) <= radius * radius
}

/// Whether the point `(px, py)`, relative to the top-left corner of a
/// `w` × `h` rectangle, belongs to the rectangle with its corners rounded to
/// `radius`: in each corner zone of `radius` × `radius` the point must lie
/// within `radius` of that corner's circle centre.
pub open spec fn spec_point_in_rounded_rect(px: int, py: int, w: int, h: int, radius: int) -> bool {
    &&& (px < radius && py < radius ==> within_radius(px, py, radius, radius, radius))
    &&& (px >= w - radius && py < radius ==> within_radius(
        px,
        py,
        w - radius - 1,
        radius,
        radius,
    ))
    &&& (px < radius && py >= h - radius ==> within_radius(
        px,
        py,
        radius,
        h - radius - 1,
        radius,
    ))
    &&& (px >= w - radius && py >= h - radius ==> within_radius(
        px,
        py,
        w - radius - 1,
        h - radius - 1,
        radius,
    ))
}

proof fn lemma_square_fits(a: int)
    by (nonlinear_arith)
    requires
        -0x2_0000_0000 <= a <= 0x2_0000_0000,
    ensures
        0 <= a * a <= 0x4_0000_0000_0000_0000,
{
}

fn is_within_radius(px: i64, py: i64, cx: i64, cy: i64, radius: i64) -> (r: bool)
    requires
        -0x8000_0000 <= px <= 0x8000_0000,
        -0x8000_0000 <= py <= 0x8000_0000,
        -0x1_0000_0000 <= cx <= 0x1_0000_0000,
        -0x1_0000_0000 <= cy <= 0x1_0000_0000,
        -0x8000_0000 <= radius <= 0x8000_0000,
    ensures
        r == within_radius(px as int, py as int, cx as int, cy as int, radius as int),
{
    proof {
        lemma_square_fits(px - cx);
        lemma_square_fits(py - cy);
        lemma_square_fits(radius as int);
    }
    let dx: i128 = (px - cx) as i128;
    let dy: i128 = (py - cy) as i128;
    let rr: i128 = radius as i128;
    dx * dx + dy * dy <= rr * rr
}

/// Whether `(px, py)` belongs to the rounded rectangle of `w` × `h`.
pub fn point_in_rounded_rect(px: i32, py: i32, w: i32, h: i32, radius: i32) -> (inside: bool)
    ensures
        inside == spec_point_in_rounded_rect(
            px as int,
            py as int,
            w as int,
            h as int,
            radius as int,
        ),
{
    let px: i64 = px as i64;
    let py: i64 = py as i64;
    let w: i64 = w as i64;
    let h: i64 = h as i64;
    let r: i64 = radius as i64;
    let left: bool = px < r;
    let right: bool = px >= w - r;
    let top: bool = py < r;
    let bottom: bool = py >= h - r;
    if left && top && !is_within_radius(px, py, r, r, r) {
        return false;
    }
    if right && top && !is_within_radius(px, py, w - r - 1, r, r) {
        return false;
    }
    if left && bottom && !is_within_radius(px, py, r, h - r - 1, r) {
        return false;
    }
    if right && bottom && !is_within_radius(px, py, w - r - 1, h - r - 1, r) {
        return false;
    }
    true
}

/// A filled rectangle with rounded corners and a hard edge, its top-left
/// corner at `(x, y)`.
pub struct RoundedRect {
    pub x: i32,
    pub y: i32,
    pub w: u32,
    pub h: u32,
    pub radius: i32,
    pub color: Color,
}

impl RoundedRect {
    /// Whether the canvas pixel `(x, y)` belongs to the shape.
    pub open spec fn covers(&self, x: int, y: int) -> bool {
        &&& 0 <= x - self.x < self.w
        &&& 0 <= y - self.y < self.h
        &&& self.w <= i32::MAX
        &&& self.h <= i32::MAX
        &&& spec_point_in_rounded_rect(
            x - self.x,
            y - self.y,
            self.w as int,
            self.h as int,
            self.radius as int,
        )
    }
}

impl PixelRule for RoundedRect {
    open spec fn spec_shade(&self, old: Color, x: int, y: int) -> Color {
        if self.covers(x, y) {
            spec_paint_over(self.color, old)
        } else {
            old
        }
    }

    fn shade(&self, old: Color, x: u32, y: u32) -> (c: Color) {
        if self.w > i32::MAX as u32 || self.h > i32::MAX as u32 {
            return old;
        }
        let px: i64 = x as i64 - self.x as i64;
        let py: i64 = y as i64 - self.y as i64;
        if px < 0 || px >= self.w as i64 || py < 0 || py >= self.h as i64 {
            return old;
        }
        if point_in_rounded_rect(px as i32, py as i32, self.w as i32, self.h as i32, self.radius) {
            Color::paint_over(self.color, old)
        } else {
            old
        }
    }
}

/// Fills a rectangle of `w` × `h` with its top-left corner at `(x, y)` and
/// its corners rounded to `radius`, blending `color` over what the canvas
/// holds; pixels outside the shape or the canvas are not touched.
pub fn rounded_rect(dest: &mut Canvas, x: i32, y: i32, w: u32, h: u32, radius: i32, color: Color)
    ensures
        final(dest).spec_width() == old(dest).spec_width(),
        final(dest).spec_height() == old(dest).spec_height(),
        forall|i: int, j: int|
            final(dest).contains(i, j) ==> #[trigger] final(dest).at(i, j) == (RoundedRect {
                x,
                y,
                w,
                h,
                radius,
                color,
            }).spec_shade(old(dest).at(i, j), i, j),
{
    let shape = RoundedRect { x, y, w, h, radius, color };
    let x0: u32 = clip_coord(x as i64);
    let y0: u32 = clip_coord(y as i64);
    let x1: u32 = clip_coord(x as i64 + w as i64);
    let y1: u32 = clip_coord(y as i64 + h as i64);
    dest.paint_region(&shape, x0, y0, x1, y1);
}

/// Normalised distance at which an anti-aliased edge has faded out.
pub const AA_EDGE: i64 = 1_050_000;

/// Width of the anti-aliased band in normalised distance.
pub const AA_BAND: i64 = 50_000;

/// Offset of the pixel coordinate `p` from the centre `c`, in units of the
/// radius `r`.
pub open spec fn spec_norm_offset(p: int, c: Fixed, r: Fixed) -> Fixed {
    Fixed::from_int(p as i64).minus(c).over(r)
}

pub fn norm_offset(p: u32, c: Fixed, r: Fixed) -> (d: Fixed)
    ensures
        d == spec_norm_offset(p as int, c, r),
{
    Fixed::from_int(p as i64).minus(c).over(r)
}

/// Length of the vector `(dx, dy)`.
pub open spec fn spec_hypot(dx: Fixed, dy: Fixed) -> Fixed {
    dx.times(dx).plus(dy.times(dy)).root()
}

#[verifier::when_used_as_spec(spec_hypot)]
pub fn hypot(dx: Fixed, dy: Fixed) -> (d: Fixed)
    ensures
        d == spec_hypot(dx, dy),
{
    dx.times(dx).plus(dy.times(dy)).root()
}

/// Distance of the pixel `(x, y)` from the centre of an ellipse, normalised
/// so that the outline of the ellipse lies at 1.
pub open spec fn spec_norm_dist(x: int, y: int, cx: Fixed, cy: Fixed, rx: Fixed, ry: Fixed) -> Fixed {
    spec_hypot(spec_norm_offset(x, cx, rx), spec_norm_offset(y, cy, ry))
}

pub fn norm_dist(x: u32, y: u32, cx: Fixed, cy: Fixed, rx: Fixed, ry: Fixed) -> (d: Fixed)
    ensures
        d == spec_norm_dist(x as int, y as int, cx, cy, rx, ry),
{
    hypot(norm_offset(x, cx, rx), norm_offset(y, cy, ry))
}

/// Alpha of an anti-aliased edge pixel at the normalised distance `d`: the
/// full `alpha` at 1, falling linearly to nothing at 1.05.
pub open spec fn spec_edge_alpha(d: Fixed, alpha: u8) -> u8 {
    Fixed::millionths(AA_EDGE).minus(d).over(Fixed::millionths(AA_BAND)).times(
        Fixed::from_int(alpha as i64),
    ).channel()
}

#[verifier::when_used_as_spec(spec_edge_alpha)]
pub fn edge_alpha(d: Fixed, alpha: u8) -> (a: u8)
    ensures
        a == spec_edge_alpha(d, alpha),
{
    Fixed::millionths(AA_EDGE).minus(d).over(Fixed::millionths(AA_BAND)).times(
        Fixed::from_int(alpha as i64),
    ).channel()
}

/// Largest magnitude, in raw units, of a centre or a radius for which a
/// shape is scanned over a window around it; beyond, the whole canvas is
/// scanned.
pub const TAME: i64 = 0x100_0000_0000;

/// Whether `v` is small enough for a window to be worked out around it.
pub open spec fn spec_tame(v: Fixed) -> bool {
    -TAME <= v.raw <= TAME
}

#[verifier::when_used_as_spec(spec_tame)]
pub fn tame(v: Fixed) -> (r: bool)
    ensures
        r == spec_tame(v),
{
    -TAME <= v.raw && v.raw <= TAME
}

/// How far from its centre a shape of the radius `r` is scanned: out to the
/// end of its anti-aliased edge and two pixels more.
pub open spec fn spec_scan_reach(r: Fixed) -> Fixed {
    r.magnitude().times(Fixed::millionths(AA_EDGE)).plus(Fixed::from_int(2))
}

#[verifier::when_used_as_spec(spec_scan_reach)]
pub fn scan_reach(r: Fixed) -> (d: Fixed)
    ensures
        d == spec_scan_reach(r),
{
    r.magnitude().times(Fixed::millionths(AA_EDGE)).plus(Fixed::from_int(2))
}

/// First column (or row) of the window scanned for a shape centred at `c`
/// with the radius `r`, clipped at zero.
pub open spec fn spec_window_start(c: Fixed, r: Fixed) -> u32 {
    c.minus(spec_scan_reach(r)).upper(Fixed::zero()).extent()
}

#[verifier::when_used_as_spec(spec_window_start)]
pub fn window_start(c: Fixed, r: Fixed) -> (p: u32)
    ensures
        p == spec_window_start(c, r),
{
    c.minus(scan_reach(r)).upper(Fixed::zero()).extent()
}

/// One past the last column (or row) of the window scanned for a shape.
pub open spec fn spec_window_end(c: Fixed, r: Fixed) -> u32 {
    c.plus(spec_scan_reach(r)).plus(Fixed::one()).extent()
}

#[verifier::when_used_as_spec(spec_window_end)]
pub fn window_end(c: Fixed, r: Fixed) -> (p: u32)
    ensures
        p == spec_window_end(c, r),
{
    c.plus(scan_reach(r)).plus(Fixed::one()).extent()
}

/// A pixel whose column (or row) lies outside the window of a shape lies
/// more than the radius and its anti-aliased edge from the centre: its
/// offset from the centre is at least the radius times 1.05 and three pixels
/// more.
#[verifier::rlimit(50)]
pub proof fn lemma_outside_window(p: u32, c: Fixed, r: Fixed)
    requires
        spec_tame(c),
        spec_tame(r),
        p < spec_window_start(c, r) || p >= spec_window_end(c, r),
    ensures
        Fixed::from_int(p as i64).minus(c).raw == p * SCALE - c.raw,
        0 <= spec_scan_reach(r).raw <= 2 * TAME,
        p < spec_window_start(c, r) ==> c.raw - p * SCALE >= spec_scan_reach(r).raw + SCALE,
        p >= spec_window_end(c, r) ==> p * SCALE - c.raw > spec_scan_reach(r).raw,
        (if r.raw < 0 {
            -r.raw
        } else {
            r.raw as int
        }) * AA_EDGE < (spec_scan_reach(r).raw - 2 * SCALE) * SCALE + SCALE,
{
    reveal(fx_mul);
    let m = if r.raw < 0 {
        -r.raw
    } else {
        r.raw as int
    };
    assert(r.magnitude().raw == m);
    assert(0 <= m * AA_EDGE <= TAME * AA_EDGE) by (nonlinear_arith)
        requires
            0 <= m <= TAME,
            AA_EDGE == 1_050_000,
    ;
    let e = (m * AA_EDGE) / (SCALE as int);
    assert(0 <= e && e * SCALE <= m * AA_EDGE < e * SCALE + SCALE && e <= 2 * TAME - 2 * SCALE)
        by (nonlinear_arith)
        requires
            e == (m * AA_EDGE) / (SCALE as int),
            0 <= m * AA_EDGE <= TAME * AA_EDGE,
            TAME == 0x100_0000_0000,
            AA_EDGE == 1_050_000,
            SCALE == 1_000_000,
    ;
    assert(spec_scan_reach(r).raw == e + 2 * SCALE);
    assert(0 <= p * SCALE <= 0xffff_ffff * SCALE) by (nonlinear_arith)
        requires
            0 <= p <= 0xffff_ffff,
            SCALE == 1_000_000,
    ;
    let reach = e + 2 * SCALE;
    if p < spec_window_start(c, r) {
        let lo = c.raw - reach;
        assert(c.minus(spec_scan_reach(r)).raw == lo);
        assert(lo > 0);
        assert(lo / (SCALE as int) >= p + 1);
        assert(lo >= (p + 1) * SCALE) by (nonlinear_arith)
            requires
                lo / (SCALE as int) >= p + 1,
                lo > 0,
                SCALE == 1_000_000,
        ;
        assert((p + 1) * SCALE == p * SCALE + SCALE) by (nonlinear_arith);
    } else {
        let hi = c.raw + reach + SCALE;
        assert(c.plus(spec_scan_reach(r)).plus(Fixed::one()).raw == hi);
        if hi >= 0 {
            assert(hi / (SCALE as int) <= p) by {
                if hi / (SCALE as int) > 0xffff_ffff {
                } else {
                }
            }
            assert(hi < (p + 1) * SCALE) by (nonlinear_arith)
                requires
                    hi / (SCALE as int) <= p,
                    hi >= 0,
                    SCALE == 1_000_000,
            ;
            assert((p + 1) * SCALE == p * SCALE + SCALE) by (nonlinear_arith);
        }
    }
}

/// An offset that is at least the radius times 1.05, and not zero, is at
/// least 1.05 once it is put in units of the radius.
pub proof fn lemma_far_offset(a: int, r: int)
    requires
        a != 0,
        -0x4000_0000_0000_0000 <= a <= 0x4000_0000_0000_0000,
        (if a < 0 {
            -a
        } else {
            a
        }) * SCALE >= (if r < 0 {
            -r
        } else {
            r
        }) * AA_EDGE,
    ensures
        fx_div(a, r) >= AA_EDGE || fx_div(a, r) <= -AA_EDGE,
{
    reveal(fx_div);
    let n = if a < 0 {
        -a
    } else {
        a
    };
    let m = if r < 0 {
        -r
    } else {
        r
    };
    if m != 0 {
        assert((n * SCALE) / m >= AA_EDGE) by (nonlinear_arith)
            requires
                n * SCALE >= m * AA_EDGE,
                m > 0,
        ;
        assert(a * SCALE == if a < 0 {
            -(n * SCALE)
        } else {
            n * SCALE
        }) by (nonlinear_arith)
            requires
                n == if a < 0 {
                    -a
                } else {
                    a
                },
        ;
        assert(n * SCALE > 0) by (nonlinear_arith)
            requires
                n > 0,
                SCALE == 1_000_000,
        ;
    }
}

/// A vector with a leg of 1.05 or more is at least 1.05 long.
#[verifier::rlimit(50)]
pub proof fn lemma_hypot_far(dx: Fixed, dy: Fixed)
    requires
        dx.raw >= AA_EDGE || dx.raw <= -AA_EDGE || dy.raw >= AA_EDGE || dy.raw <= -AA_EDGE,
    ensures
        spec_hypot(dx, dy).raw >= AA_EDGE,
{
    reveal(fx_mul);
    let x = dx.raw as int;
    let y = dy.raw as int;
    lemma_fx_square_nonnegative(x);
    lemma_fx_square_nonnegative(y);
    if x >= AA_EDGE || x <= -AA_EDGE {
        assert(x * x >= 1_102_500 * SCALE) by (nonlinear_arith)
            requires
                x >= 1_050_000 || x <= -1_050_000,
                SCALE == 1_000_000,
        ;
        lemma_div_trunc_at_least(x * x, SCALE as int, 1_102_500);
    } else {
        assert(y * y >= 1_102_500 * SCALE) by (nonlinear_arith)
            requires
                y >= 1_050_000 || y <= -1_050_000,
                SCALE == 1_000_000,
        ;
        lemma_div_trunc_at_least(y * y, SCALE as int, 1_102_500);
    }
    let sum = fx_add(fx_mul(x, x), fx_mul(y, y));
    assert(sum >= 1_102_500);
    assert(1_050_000 * 1_050_000 <= sum * SCALE) by (nonlinear_arith)
        requires
            sum >= 1_102_500,
            SCALE == 1_000_000,
    ;
    lemma_fx_sqrt_at_least(sum, 1_050_000);
    lemma_fx_sqrt_fits(sum);
}

/// A pixel outside the window of an ellipse lies at or beyond the end of its
/// anti-aliased edge.
#[verifier::rlimit(50)]
pub proof fn lemma_outside_window_is_far(x: u32, y: u32, cx: Fixed, cy: Fixed, rx: Fixed, ry: Fixed)
    requires
        spec_tame(cx),
        spec_tame(cy),
        spec_tame(rx),
        spec_tame(ry),
        !(spec_window_start(cx, rx) <= x < spec_window_end(cx, rx) && spec_window_start(cy, ry)
            <= y < spec_window_end(cy, ry)),
    ensures
        spec_norm_dist(x as int, y as int, cx, cy, rx, ry).raw >= AA_EDGE,
{
    if !(spec_window_start(cx, rx) <= x < spec_window_end(cx, rx)) {
        lemma_outside_window(x, cx, rx);
        let a = x * SCALE - cx.raw;
        lemma_far_offset_of_window(a, rx, spec_scan_reach(rx));
        lemma_fx_div_fits(a, rx.raw as int);
        assert(spec_norm_offset(x as int, cx, rx).raw == fx_div(a, rx.raw as int));
        lemma_hypot_far(spec_norm_offset(x as int, cx, rx), spec_norm_offset(y as int, cy, ry));
    } else {
        lemma_outside_window(y, cy, ry);
        let a = y * SCALE - cy.raw;
        lemma_far_offset_of_window(a, ry, spec_scan_reach(ry));
        lemma_fx_div_fits(a, ry.raw as int);
        assert(spec_norm_offset(y as int, cy, ry).raw == fx_div(a, ry.raw as int));
        lemma_hypot_far(spec_norm_offset(x as int, cx, rx), spec_norm_offset(y as int, cy, ry));
    }
}

/// An offset beyond the reach of the scan of a radius is at least 1.05 in
/// units of the radius.
proof fn lemma_far_offset_of_window(a: int, r: Fixed, reach: Fixed)
    requires
        spec_tame(r),
        -0x4000_0000_0000_0000 <= a <= 0x4000_0000_0000_0000,
        0 <= reach.raw,
        a > reach.raw || -a >= reach.raw + SCALE,
        (if r.raw < 0 {
            -r.raw
        } else {
            r.raw as int
        }) * AA_EDGE < (reach.raw - 2 * SCALE) * SCALE + SCALE,
    ensures
        fx_div(a, r.raw as int) >= AA_EDGE || fx_div(a, r.raw as int) <= -AA_EDGE,
{
    let n = if a < 0 {
        -a
    } else {
        a
    };
    let m = if r.raw < 0 {
        -r.raw
    } else {
        r.raw as int
    };
    assert(n * SCALE >= m * AA_EDGE) by (nonlinear_arith)
        requires
            n > reach.raw,
            m * AA_EDGE < (reach.raw - 2 * SCALE) * SCALE + SCALE,
            SCALE == 1_000_000,
    ;
    lemma_far_offset(a, r.raw as int);
}

/// Linear interpolation from `a` to `b` at `t`, not clamped.
pub open spec fn spec_mix(a: Fixed, b: Fixed, t: Fixed) -> Fixed {
    a.plus(b.minus(a).times(t))
}

#[verifier::when_used_as_spec(spec_mix)]
pub fn mix(a: Fixed, b: Fixed, t: Fixed) -> (r: Fixed)
    ensures
        r == spec_mix(a, b, t),
{
    a.plus(b.minus(a).times(t))
}

/// A filled ellipse with an anti-aliased edge.
pub struct EllipseFill {
    pub cx: Fixed,
    pub cy: Fixed,
    pub rx: Fixed,
    pub ry: Fixed,
    pub color: Color,
}

impl PixelRule for EllipseFill {
    /// Inside the outline the colour is blended over the pixel as it is; in
    /// the band from 1 to 1.05 with its alpha scaled down; beyond, nothing.
    open spec fn spec_shade(&self, old: Color, x: int, y: int) -> Color {
        let d = spec_norm_dist(x, y, self.cx, self.cy, self.rx, self.ry);
        if d.below(Fixed::one()) {
            spec_paint_over(self.color, old)
        } else if d.below(Fixed::millionths(AA_EDGE)) {
            spec_paint_over(self.color.with_alpha(spec_edge_alpha(d, self.color.a)), old)
        } else {
            old
        }
    }

    fn shade(&self, old: Color, x: u32, y: u32) -> (c: Color) {
        let d = norm_dist(x, y, self.cx, self.cy, self.rx, self.ry);
        if d.below(Fixed::one()) {
            Color::paint_over(self.color, old)
        } else if d.below(Fixed::millionths(AA_EDGE)) {
            Color::paint_over(self.color.with_alpha(edge_alpha(d, self.color.a)), old)
        } else {
            old
        }
    }
}

/// Fills the ellipse centred at `(cx, cy)` with the radii `rx` and `ry`:
/// inside its outline the colour is blended over every pixel, in the band of
/// normalised distance from 1 to 1.05 with its alpha scaled down, and beyond
/// nothing is touched.
#[verifier::rlimit(50)]
pub fn smooth_ellipse(dest: &mut Canvas, cx: Fixed, cy: Fixed, rx: Fixed, ry: Fixed, color: Color)
    ensures
        final(dest).spec_width() == old(dest).spec_width(),
        final(dest).spec_height() == old(dest).spec_height(),
        forall|x: int, y: int|
            final(dest).contains(x, y) ==> #[trigger] final(dest).at(x, y) == (EllipseFill {
                cx,
                cy,
                rx,
                ry,
                color,
            }).spec_shade(old(dest).at(x, y), x, y),
{
    let shape = EllipseFill { cx, cy, rx, ry, color };
    if tame(cx) && tame(cy) && tame(rx) && tame(ry) {
        dest.paint_region(
            &shape,
            window_start(cx, rx),
            window_start(cy, ry),
            window_end(cx, rx),
            window_end(cy, ry),
        );
        proof {
            assert forall|x: int, y: int| dest.contains(x, y) implies #[trigger] dest.at(x, y)
                == shape.spec_shade(old(dest).at(x, y), x, y) by {
                if !(spec_window_start(cx, rx) <= x < spec_window_end(cx, rx) && spec_window_start(
                    cy,
                    ry,
                ) <= y < spec_window_end(cy, ry)) {
                    lemma_outside_window_is_far(x as u32, y as u32, cx, cy, rx, ry);
                }
            }
        }
    } else {
        dest.paint(&shape);
    }
}

/// Fills the circle of radius `r` centred at `(cx, cy)`, anti-aliased.
pub fn smooth_circle(dest: &mut Canvas, cx: Fixed, cy: Fixed, r: Fixed, color: Color)
    ensures
        final(dest).spec_width() == old(dest).spec_width(),
        final(dest).spec_height() == old(dest).spec_height(),
        forall|x: int, y: int|
            final(dest).contains(x, y) ==> #[trigger] final(dest).at(x, y) == (EllipseFill {
                cx,
                cy,
                rx: r,
                ry: r,
                color,
            }).spec_shade(old(dest).at(x, y), x, y),
{
    smooth_ellipse(dest, cx, cy, r, r, color);
}

/// The pixel at the very centre of an ellipse is inside its outline: it gets
/// the fill colour blended over it at full strength.
pub proof fn lemma_ellipse_centre_filled(px: u32, py: u32, rx: Fixed, ry: Fixed, color: Color, old: Color)
    ensures
        (EllipseFill {
            cx: Fixed::from_int(px as i64),
            cy: Fixed::from_int(py as i64),
            rx,
            ry,
            color,
        }).spec_shade(old, px as int, py as int) == spec_paint_over(color, old),
{
    reveal(fx_mul);
    reveal(fx_div);
    reveal(fx_sqrt);
    let cx = Fixed::from_int(px as i64);
    let cy = Fixed::from_int(py as i64);
    assert(cx.raw == px * SCALE);
    assert(cy.raw == py * SCALE);
    assert(spec_norm_offset(px as int, cx, rx).raw == 0);
    assert(spec_norm_offset(py as int, cy, ry).raw == 0);
    assert(fx_mul(0, 0) == 0);
    assert(spec_norm_dist(px as int, py as int, cx, cy, rx, ry).raw == 0);
}

/// A pixel whose column lies at least 1.05 horizontal radii from the centre
/// of an ellipse is beyond its anti-aliased edge and keeps what it held,
/// whatever its row.
pub proof fn lemma_ellipse_far_pixel_untouched(
    x: u32,
    y: u32,
    cx: Fixed,
    cy: Fixed,
    rx: Fixed,
    ry: Fixed,
    color: Color,
    old: Color,
)
    requires
        rx.raw > 0,
        Fixed::from_int(x as i64).minus(cx).magnitude().raw * 100 >= 105 * rx.raw,
    ensures
        spec_norm_dist(x as int, y as int, cx, cy, rx, ry).raw >= AA_EDGE,
        (EllipseFill { cx, cy, rx, ry, color }).spec_shade(old, x as int, y as int) == old,
{
    reveal(fx_mul);
    reveal(fx_div);
    let a = Fixed::from_int(x as i64).minus(cx).raw as int;
    let r = rx.raw as int;
    let n = fx_div(a, r);
    let m = spec_norm_offset(y as int, cy, ry).raw as int;
    assert(n == spec_norm_offset(x as int, cx, rx).raw);
    if a >= 0 {
        assert(1_050_000 * r <= a * SCALE) by (nonlinear_arith)
            requires
                a * 100 >= 105 * r,
                SCALE == 1_000_000,
        ;
        lemma_div_trunc_at_least(a * SCALE, r, 1_050_000);
        assert(n >= 1_050_000);
    } else {
        assert(1_050_000 * r <= (-a) * SCALE) by (nonlinear_arith)
            requires
                (-a) * 100 >= 105 * r,
                SCALE == 1_000_000,
        ;
        assert(((-a) * SCALE) / r >= 1_050_000) by (nonlinear_arith)
            requires
                1_050_000 * r <= (-a) * SCALE,
                r > 0,
        ;
        assert(-(a * SCALE) == (-a) * SCALE) by (nonlinear_arith);
        assert(a * SCALE < 0) by (nonlinear_arith)
            requires
                a < 0,
                SCALE == 1_000_000,
        ;
        assert(n <= -1_050_000);
    }
    assert(n * n >= 1_102_500 * SCALE) by (nonlinear_arith)
        requires
            n >= 1_050_000 || n <= -1_050_000,
            SCALE == 1_000_000,
    ;
    lemma_div_trunc_at_least(n * n, SCALE as int, 1_102_500);
    let sq = fx_mul(n, n);
    assert(sq >= 1_102_500);
    lemma_fx_square_nonnegative(m);
    let sum = fx_add(sq, fx_mul(m, m));
    assert(sum >= 1_102_500);
    assert(1_050_000 * 1_050_000 <= sum * SCALE) by (nonlinear_arith)
        requires
            sum >= 1_102_500,
            SCALE == 1_000_000,
    ;
    lemma_fx_sqrt_at_least(sum, 1_050_000);
    lemma_fx_sqrt_fits(sum);
    assert(spec_norm_dist(x as int, y as int, cx, cy, rx, ry).raw == fx_sqrt(sum));
}

/// An ellipse shaded as if lit from the top left.
pub struct ShadedEllipse {
    pub cx: Fixed,
    pub cy: Fixed,
    pub rx: Fixed,
    pub ry: Fixed,
    pub base: Color,
    pub shadow: Color,
    pub highlight: Color,
}

/// Position along the diagonal from top-left to bottom-right, in `0 ..= 1`.
pub open spec fn spec_diagonal_shade(dx: Fixed, dy: Fixed) -> Fixed {
    dx.plus(dy).over(Fixed::from_int(2)).times(Fixed::millionths(500_000)).plus(
        Fixed::millionths(500_000),
    ).unit()
}

#[verifier::when_used_as_spec(spec_diagonal_shade)]
pub fn diagonal_shade(dx: Fixed, dy: Fixed) -> (t: Fixed)
    ensures
        t == spec_diagonal_shade(dx, dy),
{
    dx.plus(dy).over(Fixed::from_int(2)).times(Fixed::millionths(500_000)).plus(
        Fixed::millionths(500_000),
    ).unit()
}

/// Position from top to bottom, in `0 ..= 1`.
pub open spec fn spec_vertical_shade(dy: Fixed) -> Fixed {
    dy.plus(Fixed::one()).over(Fixed::from_int(2)).unit()
}

#[verifier::when_used_as_spec(spec_vertical_shade)]
pub fn vertical_shade(dy: Fixed) -> (t: Fixed)
    ensures
        t == spec_vertical_shade(dy),
{
    dy.plus(Fixed::one()).over(Fixed::from_int(2)).unit()
}

/// One channel of the two-axis gradient: from `base` to `shadow` along the
/// diagonal, and from `highlight` to that from top to bottom.
pub open spec fn spec_shaded_channel(highlight: u8, base: u8, shadow: u8, horiz: Fixed, vert: Fixed) -> u8 {
    spec_mix(
        Fixed::from_int(highlight as i64),
        spec_mix(Fixed::from_int(base as i64), Fixed::from_int(shadow as i64), horiz),
        vert,
    ).channel()
}

#[verifier::when_used_as_spec(spec_shaded_channel)]
pub fn shaded_channel(highlight: u8, base: u8, shadow: u8, horiz: Fixed, vert: Fixed) -> (c: u8)
    ensures
        c == spec_shaded_channel(highlight, base, shadow, horiz, vert),
{
    mix(
        Fixed::from_int(highlight as i64),
        mix(Fixed::from_int(base as i64), Fixed::from_int(shadow as i64), horiz),
        vert,
    ).channel()
}

impl ShadedEllipse {
    /// The opaque gradient colour at the normalised offsets `(dx, dy)`.
    pub open spec fn spec_fill(&self, dx: Fixed, dy: Fixed) -> Color {
        let horiz = spec_diagonal_shade(dx, dy);
        let vert = spec_vertical_shade(dy);
        Color {
            r: spec_shaded_channel(self.highlight.r, self.base.r, self.shadow.r, horiz, vert),
            g: spec_shaded_channel(self.highlight.g, self.base.g, self.shadow.g, horiz, vert),
            b: spec_shaded_channel(self.highlight.b, self.base.b, self.shadow.b, horiz, vert),
            a: 255,
        }
    }

    #[verifier::when_used_as_spec(spec_fill)]
    pub fn fill(&self, dx: Fixed, dy: Fixed) -> (c: Color)
        ensures
            c == self.spec_fill(dx, dy),
    {
        let horiz = diagonal_shade(dx, dy);
        let vert = vertical_shade(dy);
        Color {
            r: shaded_channel(self.highlight.r, self.base.r, self.shadow.r, horiz, vert),
            g: shaded_channel(self.highlight.g, self.base.g, self.shadow.g, horiz, vert),
            b: shaded_channel(self.highlight.b, self.base.b, self.shadow.b, horiz, vert),
            a: 255,
        }
    }
}

impl PixelRule for ShadedEllipse {
    /// Inside the outline the gradient colour; in the anti-aliased band the
    /// base colour with its alpha falling from 255; beyond, nothing.
    open spec fn spec_shade(&self, old: Color, x: int, y: int) -> Color {
        let dx = spec_norm_offset(x, self.cx, self.rx);
        let dy = spec_norm_offset(y, self.cy, self.ry);
        let d = spec_hypot(dx, dy);
        if d.below(Fixed::one()) {
            spec_paint_over(self.spec_fill(dx, dy), old)
        } else if d.below(Fixed::millionths(AA_EDGE)) {
            spec_paint_over(self.base.with_alpha(spec_edge_alpha(d, 255)), old)
        } else {
            old
        }
    }

    fn shade(&self, old: Color, x: u32, y: u32) -> (c: Color) {
        let dx = norm_offset(x, self.cx, self.rx);
        let dy = norm_offset(y, self.cy, self.ry);
        let d = hypot(dx, dy);
        if d.below(Fixed::one()) {
            Color::paint_over(self.fill(dx, dy), old)
        } else if d.below(Fixed::millionths(AA_EDGE)) {
            Color::paint_over(self.base.with_alpha(edge_alpha(d, 255)), old)
        } else {
            old
        }
    }
}

/// Fills an anti-aliased ellipse with a gradient from `highlight` at the top
/// left over `base` to `shadow` at the bottom right.
#[verifier::rlimit(50)]
pub fn shaded_ellipse(
    dest: &mut Canvas,
    cx: Fixed,
    cy: Fixed,
    rx: Fixed,
    ry: Fixed,
    base: Color,
    shadow: Color,
    highlight: Color,
)
    ensures
        final(dest).spec_width() == old(dest).spec_width(),
        final(dest).spec_height() == old(dest).spec_height(),
        forall|x: int, y: int|
            final(dest).contains(x, y) ==> #[trigger] final(dest).at(x, y) == (ShadedEllipse {
                cx,
                cy,
                rx,
                ry,
                base,
                shadow,
                highlight,
            }).spec_shade(old(dest).at(x, y), x, y),
{
    let shape = ShadedEllipse { cx, cy, rx, ry, base, shadow, highlight };
    if tame(cx) && tame(cy) && tame(rx) && tame(ry) {
        dest.paint_region(
            &shape,
            window_start(cx, rx),
            window_start(cy, ry),
            window_end(cx, rx),
            window_end(cy, ry),
        );
        proof {
            assert forall|x: int, y: int| dest.contains(x, y) implies #[trigger] dest.at(x, y)
                == shape.spec_shade(old(dest).at(x, y), x, y) by {
                if !(spec_window_start(cx, rx) <= x < spec_window_end(cx, rx) && spec_window_start(
                    cy,
                    ry,
                ) <= y < spec_window_end(cy, ry)) {
                    lemma_outside_window_is_far(x as u32, y as u32, cx, cy, rx, ry);
                }
            }
        }
    } else {
        dest.paint(&shape);
    }
}

/// The ring between an ellipse and the same ellipse grown by `thickness`.
pub struct EllipseRing {
    pub cx: Fixed,
    pub cy: Fixed,
    pub rx: Fixed,
    pub ry: Fixed,
    pub thickness: Fixed,
    pub color: Color,
}

/// Coverage of a ring pixel: each edge fades over its own band of 0.05, and
/// the smaller of the two counts.
pub open spec fn spec_ring_coverage(inner: Fixed, outer: Fixed) -> Fixed {
    let inner_aa = if inner.below(Fixed::millionths(AA_EDGE)) {
        inner.minus(Fixed::one()).over(Fixed::millionths(AA_BAND))
    } else {
        Fixed::one()
    };
    let outer_aa = if Fixed::millionths(950_000).below(outer) {
        Fixed::one().minus(outer).over(Fixed::millionths(AA_BAND))
    } else {
        Fixed::one()
    };
    inner_aa.lower(outer_aa)
}

#[verifier::when_used_as_spec(spec_ring_coverage)]
pub fn ring_coverage(inner: Fixed, outer: Fixed) -> (c: Fixed)
    ensures
        c == spec_ring_coverage(inner, outer),
{
    let inner_aa = if inner.below(Fixed::millionths(AA_EDGE)) {
        inner.minus(Fixed::one()).over(Fixed::millionths(AA_BAND))
    } else {
        Fixed::one()
    };
    let outer_aa = if Fixed::millionths(950_000).below(outer) {
        Fixed::one().minus(outer).over(Fixed::millionths(AA_BAND))
    } else {
        Fixed::one()
    };
    inner_aa.lower(outer_aa)
}

impl PixelRule for EllipseRing {
    /// A pixel at or beyond the inner outline and at or within the outer one
    /// gets the colour with its alpha scaled by the ring coverage.
    open spec fn spec_shade(&self, old: Color, x: int, y: int) -> Color {
        let inner = spec_norm_dist(x, y, self.cx, self.cy, self.rx, self.ry);
        let outer = spec_norm_dist(
            x,
            y,
            self.cx,
            self.cy,
            self.rx.plus(self.thickness),
            self.ry.plus(self.thickness),
        );
        if Fixed::one().at_most(inner) && outer.at_most(Fixed::one()) {
            spec_paint_over(
                self.color.with_alpha(
                    spec_ring_coverage(inner, outer).times(
                        Fixed::from_int(self.color.a as i64),
                    ).channel(),
                ),
                old,
            )
        } else {
            old
        }
    }

    fn shade(&self, old: Color, x: u32, y: u32) -> (c: Color) {
        let inner = norm_dist(x, y, self.cx, self.cy, self.rx, self.ry);
        let outer = norm_dist(
            x,
            y,
            self.cx,
            self.cy,
            self.rx.plus(self.thickness),
            self.ry.plus(self.thickness),
        );
        if Fixed::one().at_most(inner) && outer.at_most(Fixed::one()) {
            let alpha: u8 = ring_coverage(inner, outer).times(
                Fixed::from_int(self.color.a as i64),
            ).channel();
            Color::paint_over(self.color.with_alpha(alpha), old)
        } else {
            old
        }
    }
}

/// Draws the ring between the ellipse of radii `(rx, ry)` and the one grown
/// by `thickness`, both edges anti-aliased.
#[verifier::rlimit(50)]
pub fn ellipse_outline(
    dest: &mut Canvas,
    cx: Fixed,
    cy: Fixed,
    rx: Fixed,
    ry: Fixed,
    thickness: Fixed,
    color: Color,
)
    ensures
        final(dest).spec_width() == old(dest).spec_width(),
        final(dest).spec_height() == old(dest).spec_height(),
        forall|x: int, y: int|
            final(dest).contains(x, y) ==> #[trigger] final(dest).at(x, y) == (EllipseRing {
                cx,
                cy,
                rx,
                ry,
                thickness,
                color,
            }).spec_shade(old(dest).at(x, y), x, y),
{
    let shape = EllipseRing { cx, cy, rx, ry, thickness, color };
    let outer_rx = rx.plus(thickness);
    let outer_ry = ry.plus(thickness);
    if tame(cx) && tame(cy) && tame(outer_rx) && tame(outer_ry) {
        dest.paint_region(
            &shape,
            window_start(cx, outer_rx),
            window_start(cy, outer_ry),
            window_end(cx, outer_rx),
            window_end(cy, outer_ry),
        );
        proof {
            assert forall|x: int, y: int| dest.contains(x, y) implies #[trigger] dest.at(x, y)
                == shape.spec_shade(old(dest).at(x, y), x, y) by {
                if !(spec_window_start(cx, outer_rx) <= x < spec_window_end(cx, outer_rx)
                    && spec_window_start(cy, outer_ry) <= y < spec_window_end(cy, outer_ry)) {
                    lemma_outside_window_is_far(x as u32, y as u32, cx, cy, outer_rx, outer_ry);
                }
            }
        }
    } else {
        dest.paint(&shape);
    }
}

/// A disc of light whose strength falls off quadratically from the centre.
pub struct SoftCircle {
    pub cx: Fixed,
    pub cy: Fixed,
    pub radius: Fixed,
    pub color: Color,
}

/// Alpha of a light at the distance `dist` from its centre: the square of
/// `1 - dist / radius` times the full `alpha`.
pub open spec fn spec_falloff_alpha(dist: Fixed, radius: Fixed, alpha: u8) -> u8 {
    let falloff = Fixed::one().minus(dist.over(radius));
    falloff.times(falloff).times(Fixed::from_int(alpha as i64)).channel()
}

#[verifier::when_used_as_spec(spec_falloff_alpha)]
pub fn falloff_alpha(dist: Fixed, radius: Fixed, alpha: u8) -> (a: u8)
    ensures
        a == spec_falloff_alpha(dist, radius, alpha),
{
    let falloff = Fixed::one().minus(dist.over(radius));
    falloff.times(falloff).times(Fixed::from_int(alpha as i64)).channel()
}

/// Distance of the pixel `(x, y)` from the point `(cx, cy)`, in pixels.
pub open spec fn spec_pixel_dist(x: int, y: int, cx: Fixed, cy: Fixed) -> Fixed {
    spec_hypot(Fixed::from_int(x as i64).minus(cx), Fixed::from_int(y as i64).minus(cy))
}

pub fn pixel_dist(x: u32, y: u32, cx: Fixed, cy: Fixed) -> (d: Fixed)
    ensures
        d == spec_pixel_dist(x as int, y as int, cx, cy),
{
    hypot(Fixed::from_int(x as i64).minus(cx), Fixed::from_int(y as i64).minus(cy))
}

/// Distance of the pixel `(px, py)` from the point `(cx, cy)`, in pixels.
pub open spec fn spec_pixel_span(px: u32, py: u32, cx: Fixed, cy: Fixed) -> Fixed {
    spec_pixel_dist(px as int, py as int, cx, cy)
}

#[verifier::when_used_as_spec(spec_pixel_span)]
pub fn pixel_span(px: u32, py: u32, cx: Fixed, cy: Fixed) -> (d: Fixed)
    ensures
        d == spec_pixel_span(px, py, cx, cy),
{
    pixel_dist(px, py, cx, cy)
}

impl PixelRule for SoftCircle {
    /// Within the radius the colour is added with the falloff alpha.
    open spec fn spec_shade(&self, old: Color, x: int, y: int) -> Color {
        let dist = spec_pixel_dist(x, y, self.cx, self.cy);
        if dist.below(self.radius) {
            spec_blend_additive(
                old,
                self.color.with_alpha(spec_falloff_alpha(dist, self.radius, self.color.a)),
            )
        } else {
            old
        }
    }

    fn shade(&self, old: Color, x: u32, y: u32) -> (c: Color) {
        let dist = pixel_dist(x, y, self.cx, self.cy);
        if dist.below(self.radius) {
            Color::blend_additive(
                old,
                self.color.with_alpha(falloff_alpha(dist, self.radius, self.color.a)),
            )
        } else {
            old
        }
    }
}

/// A vector is about as long as either of its legs at least: no more than
/// a millionth shorter, unless the leg is too long for its square to be
/// held, where the length stays above three million.
#[verifier::rlimit(50)]
pub proof fn lemma_hypot_at_least_leg(dx: Fixed, dy: Fixed)
    requires
        dx.raw >= SCALE || dx.raw <= -SCALE,
    ensures
        spec_hypot(dx, dy).raw >= dx.magnitude().raw - 1 || spec_hypot(dx, dy).raw
            >= 3_000_000_000_000,
        spec_hypot(dy, dx).raw >= dx.magnitude().raw - 1 || spec_hypot(dy, dx).raw
            >= 3_000_000_000_000,
{
    reveal(fx_mul);
    let x = dx.raw as int;
    let y = dy.raw as int;
    let n = if x < 0 {
        -x
    } else {
        x
    };
    lemma_fx_square_nonnegative(x);
    lemma_fx_square_nonnegative(y);
    assert(x * x == n * n) by (nonlinear_arith)
        requires
            n == if x < 0 {
                -x
            } else {
                x
            },
    ;
    let sq = fx_mul(x, x);
    let sum = fx_add(sq, fx_mul(y, y));
    let sum2 = fx_add(fx_mul(y, y), sq);
    assert(sum == sum2);
    assert(sum >= sq);
    if (x * x) / (SCALE as int) > i64::MAX {
        assert(sum == i64::MAX);
        assert(3_000_000_000_000int * 3_000_000_000_000int <= sum * SCALE) by (nonlinear_arith)
            requires
                sum == 0x7fff_ffff_ffff_ffff,
                SCALE == 1_000_000,
        ;
        lemma_fx_sqrt_at_least(sum, 3_000_000_000_000);
        lemma_fx_sqrt_fits(sum);
    } else {
        assert(sq == (x * x) / (SCALE as int));
        assert(sq * SCALE >= n * n - SCALE + 1 && sq > 0) by (nonlinear_arith)
            requires
                sq == (n * n) / (SCALE as int),
                n >= SCALE,
                SCALE == 1_000_000,
        ;
        assert((n - 1) * (n - 1) <= sum * SCALE) by (nonlinear_arith)
            requires
                sq * SCALE >= n * n - SCALE + 1,
                sum >= sq,
                n >= SCALE,
                SCALE == 1_000_000,
        ;
        lemma_fx_sqrt_at_least(sum, n - 1);
        lemma_fx_sqrt_fits(sum);
    }
}

/// A pixel outside the window of a soft circle lies at least its radius
/// from the centre.
#[verifier::rlimit(50)]
pub proof fn lemma_outside_window_is_unlit(x: u32, y: u32, cx: Fixed, cy: Fixed, radius: Fixed)
    requires
        spec_tame(cx),
        spec_tame(cy),
        spec_tame(radius),
        !(spec_window_start(cx, radius) <= x < spec_window_end(cx, radius) && spec_window_start(
            cy,
            radius,
        ) <= y < spec_window_end(cy, radius)),
    ensures
        spec_pixel_dist(x as int, y as int, cx, cy).raw >= radius.raw,
{
    let m = if radius.raw < 0 {
        -radius.raw
    } else {
        radius.raw as int
    };
    let dx = Fixed::from_int(x as i64).minus(cx);
    let dy = Fixed::from_int(y as i64).minus(cy);
    if !(spec_window_start(cx, radius) <= x < spec_window_end(cx, radius)) {
        lemma_outside_window(x, cx, radius);
        lemma_reach_covers(radius);
        lemma_hypot_at_least_leg(dx, dy);
    } else {
        lemma_outside_window(y, cy, radius);
        lemma_reach_covers(radius);
        lemma_hypot_at_least_leg(dy, dx);
    }
}

/// The reach of the scan of a radius is at least the radius and two pixels.
proof fn lemma_reach_covers(r: Fixed)
    requires
        spec_tame(r),
    ensures
        spec_scan_reach(r).raw >= r.magnitude().raw + 2 * SCALE,
        r.magnitude().raw >= r.raw,
{
    reveal(fx_mul);
    let m = r.magnitude().raw as int;
    assert((m * AA_EDGE) / (SCALE as int) >= m) by (nonlinear_arith)
        requires
            0 <= m,
            AA_EDGE == 1_050_000,
            SCALE == 1_000_000,
    ;
    assert(0 <= m * AA_EDGE <= TAME * AA_EDGE) by (nonlinear_arith)
        requires
            0 <= m <= TAME,
            AA_EDGE == 1_050_000,
    ;
    assert((m * AA_EDGE) / (SCALE as int) <= 2 * TAME) by (nonlinear_arith)
        requires
            0 <= m * AA_EDGE <= TAME * AA_EDGE,
            TAME == 0x100_0000_0000,
            AA_EDGE == 1_050_000,
            SCALE == 1_000_000,
    ;
}

/// Adds a soft disc of light of the given radius around `(cx, cy)`: within
/// the radius every pixel gets the colour added with an alpha that falls off
/// quadratically from the centre.
#[verifier::rlimit(50)]
pub fn soft_circle(dest: &mut Canvas, cx: Fixed, cy: Fixed, radius: Fixed, color: Color)
    ensures
        final(dest).spec_width() == old(dest).spec_width(),
        final(dest).spec_height() == old(dest).spec_height(),
        forall|x: int, y: int|
            final(dest).contains(x, y) ==> #[trigger] final(dest).at(x, y) == (SoftCircle {
                cx,
                cy,
                radius,
                color,
            }).spec_shade(old(dest).at(x, y), x, y),
{
    let shape = SoftCircle { cx, cy, radius, color };
    if tame(cx) && tame(cy) && tame(radius) {
        dest.paint_region(
            &shape,
            window_start(cx, radius),
            window_start(cy, radius),
            window_end(cx, radius),
            window_end(cy, radius),
        );
        proof {
            assert forall|x: int, y: int| dest.contains(x, y) implies #[trigger] dest.at(x, y)
                == shape.spec_shade(old(dest).at(x, y), x, y) by {
                if !(spec_window_start(cx, radius) <= x < spec_window_end(cx, radius)
                    && spec_window_start(cy, radius) <= y < spec_window_end(cy, radius)) {
                    lemma_outside_window_is_unlit(x as u32, y as u32, cx, cy, radius);
                }
            }
        }
    } else {
        dest.paint(&shape);
    }
}

/// A band of light that leans to the right as it runs down the canvas.
pub struct DiagonalBeam {
    pub x_offset: i32,
    pub color: Color,
    pub half_width: i32,
    pub slope: Fixed,
}

impl DiagonalBeam {
    /// Column of the middle of the beam in row `y`.
    pub open spec fn spec_centre(&self, y: int) -> int {
        self.x_offset + Fixed::from_int(y as i64).times(self.slope).pixels()
    }

    pub fn centre(&self, y: u32) -> (c: i64)
        ensures
            c == self.spec_centre(y as int),
    {
        self.x_offset as i64 + Fixed::from_int(y as i64).times(self.slope).pixels() as i64
    }

    /// Alpha of the beam `off` columns from its middle: full in the middle,
    /// falling linearly to nothing at the half width.
    pub open spec fn spec_alpha_at(&self, off: int) -> u8 {
        Fixed::one().minus(
            Fixed::from_int(off as i64).magnitude().over(Fixed::from_int(self.half_width as i64)),
        ).times(Fixed::from_int(self.color.a as i64)).channel()
    }

    pub fn alpha_at(&self, off: i64) -> (a: u8)
        ensures
            a == self.spec_alpha_at(off as int),
    {
        Fixed::one().minus(
            Fixed::from_int(off).magnitude().over(Fixed::from_int(self.half_width as i64)),
        ).times(Fixed::from_int(self.color.a as i64)).channel()
    }
}

impl PixelRule for DiagonalBeam {
    /// Within the half width of the middle of its row a pixel gets the
    /// colour added, unless the alpha there has fallen to nothing.
    open spec fn spec_shade(&self, old: Color, x: int, y: int) -> Color {
        let off = x - self.spec_centre(y);
        if -self.half_width <= off < self.half_width && self.spec_alpha_at(off) > 0 {
            spec_blend_additive(old, self.color.with_alpha(self.spec_alpha_at(off)))
        } else {
            old
        }
    }

    fn shade(&self, old: Color, x: u32, y: u32) -> (c: Color) {
        let off: i64 = x as i64 - self.centre(y);
        if -(self.half_width as i64) <= off && off < self.half_width as i64 {
            let alpha: u8 = self.alpha_at(off);
            if alpha > 0 {
                return Color::blend_additive(old, self.color.with_alpha(alpha));
            }
        }
        old
    }
}

/// Adds a diagonal beam of light over the whole height of the canvas.
pub fn diagonal_beam(dest: &mut Canvas, x_offset: i32, color: Color, half_width: i32, slope: Fixed)
    ensures
        final(dest).spec_width() == old(dest).spec_width(),
        final(dest).spec_height() == old(dest).spec_height(),
        forall|x: int, y: int|
            final(dest).contains(x, y) ==> #[trigger] final(dest).at(x, y) == (DiagonalBeam {
                x_offset,
                color,
                half_width,
                slope,
            }).spec_shade(old(dest).at(x, y), x, y),
{
    let shape = DiagonalBeam { x_offset, color, half_width, slope };
    dest.paint(&shape);
}

} // verus!
