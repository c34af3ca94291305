//! The frame composer and the full-canvas backgrounds.

use vstd::prelude::*;
use crate::canvas::{fits_memory, resampled_pixels, Canvas, Overlay, PixelRule};
use crate::color::{spec_lerp_color, Color};
use crate::effects::{coswing, swing, Gradient};
use crate::fixed::Fixed;
use crate::random::{draw_below, seeded_state, SeededRng};
use crate::cards::{grow, shrink};
use crate::shapes::{diagonal_beam, hypot, pixel_span, soft_circle, DiagonalBeam, SoftCircle};
use crate::text::count_fixed;

verus! {

/// Lays layers onto a frame of a fixed extent.
pub struct FrameComposer {
    pub width: u32,
    pub height: u32,
}

/// Offset at which an element of the extent `inner` is centred in `outer`,
/// rounded toward zero; negative where the element is the larger.
pub open spec fn spec_centre_offset(outer: u32, inner: u32) -> i32 {
    if inner > outer {
        (-((inner - outer) / 2)) as i32
    } else {
        ((outer - inner) / 2) as i32
    }
}

#[verifier::when_used_as_spec(spec_centre_offset)]
pub fn centre_offset(outer: u32, inner: u32) -> (r: i32)
    ensures
        r == spec_centre_offset(outer, inner),
{
    if inner > outer {
        (-(((inner - outer) / 2) as i64)) as i32
    } else {
        ((outer - inner) / 2) as i32
    }
}

/// Length of a side of `side` pixels scaled by `scale`: rounded to the
/// nearest pixel, at least one.
pub open spec fn spec_scaled_side(side: u32, scale: Fixed) -> u32 {
    if Fixed::from_int(Fixed::from_int(side as i64).times(scale).nearest()).extent() < 1 {
        1
    } else {
        Fixed::from_int(Fixed::from_int(side as i64).times(scale).nearest()).extent()
    }
}

#[verifier::when_used_as_spec(spec_scaled_side)]
pub fn scaled_side(side: u32, scale: Fixed) -> (r: u32)
    ensures
        r == spec_scaled_side(side, scale),
{
    if Fixed::from_int(Fixed::from_int(side as i64).times(scale).nearest()).extent() < 1 {
        1
    } else {
        Fixed::from_int(Fixed::from_int(side as i64).times(scale).nearest()).extent()
    }
}

/// Whether a scale is so close to one that scaling by it changes nothing.
pub open spec fn spec_near_one(scale: Fixed) -> bool {
    scale.minus(Fixed::one()).magnitude().below(Fixed::millionths(1_000))
}

#[verifier::when_used_as_spec(spec_near_one)]
pub fn near_one(scale: Fixed) -> (r: bool)
    ensures
        r == spec_near_one(scale),
{
    scale.minus(Fixed::one()).magnitude().below(Fixed::millionths(1_000))
}

impl FrameComposer {
    pub open spec fn spec_new(width: u32, height: u32) -> FrameComposer {
        FrameComposer { width, height }
    }

    #[verifier::when_used_as_spec(spec_new)]
    pub fn new(width: u32, height: u32) -> (c: FrameComposer)
        ensures
            c == FrameComposer::spec_new(width, height),
    {
        FrameComposer { width, height }
    }

    /// A frame filled with one colour.
    pub fn create_frame(&self, bg_color: Color) -> (frame: Canvas)
        requires
            fits_memory(self.width as int, self.height as int),
        ensures
            frame.spec_width() == self.width,
            frame.spec_height() == self.height,
            forall|x: int, y: int| frame.contains(x, y) ==> #[trigger] frame.at(x, y) == bg_color,
    {
        Canvas::filled(self.width, self.height, bg_color)
    }

    /// A frame with a vertical gradient.
    pub fn create_gradient_frame(&self, top_color: Color, bottom_color: Color) -> (frame: Canvas)
        requires
            fits_memory(self.width as int, self.height as int),
        ensures
            frame.spec_width() == self.width,
            frame.spec_height() == self.height,
            forall|x: int, y: int|
                frame.contains(x, y) ==> #[trigger] frame.at(x, y) == spec_lerp_color(
                    top_color,
                    bottom_color,
                    Fixed::ratio(y as i64, self.height as i64),
                ),
    {
        let mut frame = Canvas::new(self.width, self.height);
        let rule = Gradient { top: top_color, bottom: bottom_color, height: self.height };
        frame.paint(&rule);
        frame
    }

    /// Composites `layer` onto `frame` at `(x, y)`.
    pub fn composite(&self, frame: &mut Canvas, layer: &Canvas, x: i32, y: i32)
        ensures
            final(frame).spec_width() == old(frame).spec_width(),
            final(frame).spec_height() == old(frame).spec_height(),
            forall|i: int, j: int|
                final(frame).contains(i, j) ==> #[trigger] final(frame).at(i, j) == (Overlay {
                    layer,
                    x,
                    y,
                    alpha: Fixed::one(),
                }).spec_shade(old(frame).at(i, j), i, j),
    {
        frame.composite(layer, x, y);
    }

    /// Composites `layer` onto `frame` at `(x, y)` with its alpha scaled by
    /// `alpha`: the one way by which layers reach a frame.
    pub fn composite_with_alpha(&self, frame: &mut Canvas, layer: &Canvas, x: i32, y: i32, alpha: Fixed)
        ensures
            final(frame).spec_width() == old(frame).spec_width(),
            final(frame).spec_height() == old(frame).spec_height(),
            forall|i: int, j: int|
                final(frame).contains(i, j) ==> #[trigger] final(frame).at(i, j) == (Overlay {
                    layer,
                    x,
                    y,
                    alpha,
                }).spec_shade(old(frame).at(i, j), i, j),
    {
        frame.composite_with_alpha(layer, x, y, alpha);
    }

    /// Composites `layer` centred on the extent of the composer.
    pub fn composite_centered(&self, frame: &mut Canvas, layer: &Canvas)
        ensures
            final(frame).spec_width() == old(frame).spec_width(),
            final(frame).spec_height() == old(frame).spec_height(),
            forall|i: int, j: int|
                final(frame).contains(i, j) ==> #[trigger] final(frame).at(i, j) == (Overlay {
                    layer,
                    x: spec_centre_offset(self.width, layer.spec_width()),
                    y: spec_centre_offset(self.height, layer.spec_height()),
                    alpha: Fixed::one(),
                }).spec_shade(old(frame).at(i, j), i, j),
    {
        let x: i32 = centre_offset(self.width, layer.width());
        let y: i32 = centre_offset(self.height, layer.height());
        frame.composite(layer, x, y);
    }

    /// Where a layer of the extent `inner` starts when its middle is put at the
    /// fraction `rel` of the extent `outer`.
    pub open spec fn spec_relative_start(outer: u32, inner: u32, rel: Fixed) -> i32 {
        Fixed::from_int(
            (Fixed::from_int(outer as i64).times(rel).pixels() as i64 - (inner / 2) as i64) as i64,
        ).pixels()
    }

    #[verifier::when_used_as_spec(spec_relative_start)]
    pub fn relative_start(outer: u32, inner: u32, rel: Fixed) -> (r: i32)
        ensures
            r == FrameComposer::spec_relative_start(outer, inner, rel),
    {
        Fixed::from_int(
            (Fixed::from_int(outer as i64).times(rel).pixels() as i64 - (inner / 2) as i64) as i64,
        ).pixels()
    }

    /// Composites `layer` with its middle at the fractions `(rel_x, rel_y)`
    /// of the extent of the composer.
    pub fn composite_relative(&self, frame: &mut Canvas, layer: &Canvas, rel_x: Fixed, rel_y: Fixed)
        ensures
            final(frame).spec_width() == old(frame).spec_width(),
            final(frame).spec_height() == old(frame).spec_height(),
            forall|i: int, j: int|
                final(frame).contains(i, j) ==> #[trigger] final(frame).at(i, j) == (Overlay {
                    layer,
                    x: FrameComposer::spec_relative_start(self.width, layer.spec_width(), rel_x),
                    y: FrameComposer::spec_relative_start(
                        self.height,
                        layer.spec_height(),
                        rel_y,
                    ),
                    alpha: Fixed::one(),
                }).spec_shade(old(frame).at(i, j), i, j),
    {
        let x: i32 = FrameComposer::relative_start(self.width, layer.width(), rel_x);
        let y: i32 = FrameComposer::relative_start(self.height, layer.height(), rel_y);
        frame.composite(layer, x, y);
    }

    /// The image scaled by `scale` with a triangle filter; a scale within a
    /// thousandth of one gives a copy.
    pub fn scale_image(img: &Canvas, scale: Fixed) -> (out: Canvas)
        requires
            !spec_near_one(scale) ==> fits_memory(
                spec_scaled_side(img.spec_width(), scale) as int,
                spec_scaled_side(img.spec_height(), scale) as int,
            ) && fits_memory(
                img.spec_width() as int,
                spec_scaled_side(img.spec_height(), scale) as int,
            ),
        ensures
            spec_near_one(scale) ==> out.same_as(*img),
            !spec_near_one(scale) ==> out.spec_width() == spec_scaled_side(
                img.spec_width(),
                scale,
            ) && out.spec_height() == spec_scaled_side(img.spec_height(), scale),
            !spec_near_one(scale) ==> forall|x: int, y: int|
                out.contains(x, y) ==> #[trigger] out.at(x, y) == resampled_pixels(
                    img.view(),
                    (img.spec_width(), img.spec_height()),
                    (
                        spec_scaled_side(img.spec_width(), scale),
                        spec_scaled_side(img.spec_height(), scale),
                    ),
                )[(x, y)],
    {
        if near_one(scale) {
            return img.duplicate();
        }
        img.resized(scaled_side(img.width(), scale), scaled_side(img.height(), scale))
    }

    /// The scale that makes an image of the extent given fit within the bounds:
    /// the smaller of the two ratios of bound to side.
    pub open spec fn spec_fit_scale(width: u32, height: u32, max_width: u32, max_height: u32) -> Fixed {
        Fixed::ratio(max_width as i64, width as i64).lower(Fixed::ratio(max_height as i64, height as i64))
    }

    #[verifier::when_used_as_spec(spec_fit_scale)]
    pub fn fit_scale(width: u32, height: u32, max_width: u32, max_height: u32) -> (r: Fixed)
        ensures
            r == FrameComposer::spec_fit_scale(width, height, max_width, max_height),
    {
        Fixed::ratio(max_width as i64, width as i64).lower(Fixed::ratio(max_height as i64, height as i64))
    }

    /// The image as it is where it fits within the bounds, scaled down by
    /// the scale that makes it fit where it does not.
    pub fn crop_to_fit(img: &Canvas, max_width: u32, max_height: u32) -> (out: Canvas)
        requires
            !(img.spec_width() <= max_width && img.spec_height() <= max_height) && !spec_near_one(
                FrameComposer::spec_fit_scale(
                    img.spec_width(),
                    img.spec_height(),
                    max_width,
                    max_height,
                ),
            ) ==> fits_memory(
                spec_scaled_side(
                    img.spec_width(),
                    FrameComposer::spec_fit_scale(
                        img.spec_width(),
                        img.spec_height(),
                        max_width,
                        max_height,
                    ),
                ) as int,
                spec_scaled_side(
                    img.spec_height(),
                    FrameComposer::spec_fit_scale(
                        img.spec_width(),
                        img.spec_height(),
                        max_width,
                        max_height,
                    ),
                ) as int,
            ) && fits_memory(
                img.spec_width() as int,
                spec_scaled_side(
                    img.spec_height(),
                    FrameComposer::spec_fit_scale(
                        img.spec_width(),
                        img.spec_height(),
                        max_width,
                        max_height,
                    ),
                ) as int,
            ),
        ensures
            FrameComposer::spec_cropped(*img, max_width, max_height, out),
    {
        if img.width() <= max_width && img.height() <= max_height {
            return img.duplicate();
        }
        let scale = FrameComposer::fit_scale(img.width(), img.height(), max_width, max_height);
        FrameComposer::scale_image(img, scale)
    }

    /// Whether `out` is `img` cropped to fit: a copy where the image fits
    /// or the scale that makes it fit is within a thousandth of one, and
    /// else the image resampled to its sides scaled by that scale.
    pub open spec fn spec_cropped(img: Canvas, max_width: u32, max_height: u32, out: Canvas) -> bool {
        let scale = FrameComposer::spec_fit_scale(
            img.spec_width(),
            img.spec_height(),
            max_width,
            max_height,
        );
        if (img.spec_width() <= max_width && img.spec_height() <= max_height) || spec_near_one(
            scale,
        ) {
            out.same_as(img)
        } else {
            &&& out.spec_width() == spec_scaled_side(img.spec_width(), scale)
            &&& out.spec_height() == spec_scaled_side(img.spec_height(), scale)
            &&& forall|x: int, y: int|
                out.contains(x, y) ==> #[trigger] out.at(x, y) == resampled_pixels(
                    img.view(),
                    (img.spec_width(), img.spec_height()),
                    (
                        spec_scaled_side(img.spec_width(), scale),
                        spec_scaled_side(img.spec_height(), scale),
                    ),
                )[(x, y)]
        }
    }

    /// Linear interpolation between two colours, `t` clamped into `0 ..= 1`.
    pub fn lerp_color(c1: Color, c2: Color, t: Fixed) -> (c: Color)
        ensures
            c == spec_lerp_color(c1, c2, t),
    {
        Color::lerp_color(c1, c2, t)
    }
}

/// Full-canvas backgrounds.
pub struct Backgrounds;

/// The base of the themed background: a radial gradient from deep blue
/// around a point above the middle to near black.
pub struct ThemeBase {
    pub width: u32,
    pub height: u32,
}

impl ThemeBase {
    /// The colour falls off linearly with the distance from the point at half the
    /// width and 40% of the height, out to 80% of the longer side.
    pub open spec fn spec_tint(&self, old: Color, px: u32, py: u32) -> Color {
        let t = pixel_span(
            px,
            py,
            Fixed::ratio(self.width as i64, 2),
            Fixed::from_int(self.height as i64).times(Fixed::millionths(400_000)),
        ).over(
            Fixed::from_int(if self.width > self.height {
                self.width as i64
            } else {
                self.height as i64
            }).times(Fixed::millionths(800_000)),
        ).lower(Fixed::one());
        Color::rgba(
            Fixed::from_int(30).minus(Fixed::from_int(20).times(t)).channel(),
            Fixed::from_int(40).minus(Fixed::from_int(30).times(t)).channel(),
            Fixed::from_int(70).minus(Fixed::from_int(50).times(t)).channel(),
            255,
        )
    }

    #[verifier::when_used_as_spec(spec_tint)]
    pub fn tint(&self, old: Color, px: u32, py: u32) -> (r: Color)
        ensures
            r == self.spec_tint(old, px, py),
    {
        let t = pixel_span(
            px,
            py,
            Fixed::ratio(self.width as i64, 2),
            Fixed::from_int(self.height as i64).times(Fixed::millionths(400_000)),
        ).over(
            Fixed::from_int(if self.width > self.height {
                self.width as i64
            } else {
                self.height as i64
            }).times(Fixed::millionths(800_000)),
        ).lower(Fixed::one());
        Color::rgba(
            Fixed::from_int(30).minus(Fixed::from_int(20).times(t)).channel(),
            Fixed::from_int(40).minus(Fixed::from_int(30).times(t)).channel(),
            Fixed::from_int(70).minus(Fixed::from_int(50).times(t)).channel(),
            255,
        )
    }
}

impl PixelRule for ThemeBase {
    open spec fn spec_shade(&self, old: Color, x: int, y: int) -> Color {
        self.spec_tint(old, x as u32, y as u32)
    }

    fn shade(&self, old: Color, x: u32, y: u32) -> (c: Color) {
        self.tint(old, x, y)
    }
}

/// The base of a spotlight scene: a warm light that falls off from a point.
pub struct Spotlight {
    pub width: u32,
    pub height: u32,
    pub spot_x: Fixed,
    pub spot_y: Fixed,
    pub intensity: Fixed,
}

impl Spotlight {
    /// The brightness is `1 - t²` times the intensity, where `t` is the distance
    /// from the spot as a fraction of 60% of the longer side, capped at one.
    pub open spec fn spec_tint(&self, old: Color, px: u32, py: u32) -> Color {
        let t = pixel_span(
            px,
            py,
            Fixed::from_int(self.width as i64).times(self.spot_x),
            Fixed::from_int(self.height as i64).times(self.spot_y),
        ).over(
            Fixed::from_int(if self.width > self.height {
                self.width as i64
            } else {
                self.height as i64
            }).times(Fixed::millionths(600_000)),
        ).lower(Fixed::one());
        let bright = Fixed::one().minus(t.times(t)).times(self.intensity);
        Color::rgba(
            Fixed::from_int(15).plus(Fixed::from_int(80).times(bright)).channel(),
            Fixed::from_int(12).plus(Fixed::from_int(50).times(bright)).channel(),
            Fixed::from_int(20).plus(Fixed::from_int(30).times(bright)).channel(),
            255,
        )
    }

    #[verifier::when_used_as_spec(spec_tint)]
    pub fn tint(&self, old: Color, px: u32, py: u32) -> (r: Color)
        ensures
            r == self.spec_tint(old, px, py),
    {
        let t = pixel_span(
            px,
            py,
            Fixed::from_int(self.width as i64).times(self.spot_x),
            Fixed::from_int(self.height as i64).times(self.spot_y),
        ).over(
            Fixed::from_int(if self.width > self.height {
                self.width as i64
            } else {
                self.height as i64
            }).times(Fixed::millionths(600_000)),
        ).lower(Fixed::one());
        let bright = Fixed::one().minus(t.times(t)).times(self.intensity);
        Color::rgba(
            Fixed::from_int(15).plus(Fixed::from_int(80).times(bright)).channel(),
            Fixed::from_int(12).plus(Fixed::from_int(50).times(bright)).channel(),
            Fixed::from_int(20).plus(Fixed::from_int(30).times(bright)).channel(),
            255,
        )
    }
}

impl PixelRule for Spotlight {
    open spec fn spec_shade(&self, old: Color, x: int, y: int) -> Color {
        self.spec_tint(old, x as u32, y as u32)
    }

    fn shade(&self, old: Color, x: u32, y: u32) -> (c: Color) {
        self.tint(old, x, y)
    }
}

/// A faint light along the edges of a canvas.
pub struct RimLight {
    pub width: u32,
    pub height: u32,
    pub intensity: Fixed,
}

impl RimLight {
    /// Strength of the rim light at `(px, py)`: the intensity at the edge, falling
    /// linearly to nothing fifty pixels in.
    pub open spec fn spec_factor(&self, px: u32, py: u32) -> Fixed {
        let across = Fixed::ratio(
            if px < shrink(self.width, px) {
                px as i64
            } else {
                shrink(self.width, px) as i64
            },
            50,
        );
        let down = Fixed::ratio(
            if py < shrink(self.height, py) {
                py as i64
            } else {
                shrink(self.height, py) as i64
            },
            50,
        );
        Fixed::one().minus(across.lower(down).lower(Fixed::one())).times(self.intensity)
    }

    #[verifier::when_used_as_spec(spec_factor)]
    pub fn factor(&self, px: u32, py: u32) -> (r: Fixed)
        ensures
            r == self.spec_factor(px, py),
    {
        let across = Fixed::ratio(
            if px < shrink(self.width, px) {
                px as i64
            } else {
                shrink(self.width, px) as i64
            },
            50,
        );
        let down = Fixed::ratio(
            if py < shrink(self.height, py) {
                py as i64
            } else {
                shrink(self.height, py) as i64
            },
            50,
        );
        Fixed::one().minus(across.lower(down).lower(Fixed::one())).times(self.intensity)
    }

    /// Within fifty pixels of an edge a pixel is lifted toward violet, the more
    /// the closer to the edge it lies.
    pub open spec fn spec_tint(&self, old: Color, px: u32, py: u32) -> Color {
        let factor = self.factor(px, py);
        if Fixed::millionths(10_000).below(factor) {
            Color::rgba(
                Fixed::from_int(old.r as i64).plus(Fixed::from_int(40).times(factor)).channel(),
                Fixed::from_int(old.g as i64).plus(Fixed::from_int(20).times(factor)).channel(),
                Fixed::from_int(old.b as i64).plus(Fixed::from_int(50).times(factor)).channel(),
                255,
            )
        } else {
            old
        }
    }

    #[verifier::when_used_as_spec(spec_tint)]
    pub fn tint(&self, old: Color, px: u32, py: u32) -> (r: Color)
        ensures
            r == self.spec_tint(old, px, py),
    {
        let factor = self.factor(px, py);
        if Fixed::millionths(10_000).below(factor) {
            Color::rgba(
                Fixed::from_int(old.r as i64).plus(Fixed::from_int(40).times(factor)).channel(),
                Fixed::from_int(old.g as i64).plus(Fixed::from_int(20).times(factor)).channel(),
                Fixed::from_int(old.b as i64).plus(Fixed::from_int(50).times(factor)).channel(),
                255,
            )
        } else {
            old
        }
    }
}

impl PixelRule for RimLight {
    open spec fn spec_shade(&self, old: Color, x: int, y: int) -> Color {
        self.spec_tint(old, x as u32, y as u32)
    }

    fn shade(&self, old: Color, x: u32, y: u32) -> (c: Color) {
        self.tint(old, x, y)
    }
}

/// The base of the chaos background: slowly drifting dark noise.
pub struct ChaosNoise {
    pub time: Fixed,
}

impl ChaosNoise {
    /// The level at `(px, py)` is a sine across times a cosine down, both moving
    /// with time, brought into `0 ..= 1`.
    pub open spec fn spec_tint(&self, old: Color, px: u32, py: u32) -> Color {
        let noise = Fixed::from_int(px as i64).times(Fixed::millionths(10_000)).plus(self.time).sine().times(
            Fixed::from_int(py as i64).times(Fixed::millionths(10_000)).plus(
                self.time.times(Fixed::millionths(700_000)),
            ).cosine(),
        ).times(Fixed::millionths(500_000)).plus(Fixed::millionths(500_000));
        Color::rgba(
            Fixed::from_int(20).plus(noise.times(Fixed::from_int(25))).channel(),
            Fixed::from_int(15).plus(noise.times(Fixed::from_int(15))).channel(),
            Fixed::from_int(30).plus(noise.times(Fixed::from_int(20))).channel(),
            255,
        )
    }

    #[verifier::when_used_as_spec(spec_tint)]
    pub fn tint(&self, old: Color, px: u32, py: u32) -> (r: Color)
        ensures
            r == self.spec_tint(old, px, py),
    {
        let noise = Fixed::from_int(px as i64).times(Fixed::millionths(10_000)).plus(self.time).sine().times(
            Fixed::from_int(py as i64).times(Fixed::millionths(10_000)).plus(
                self.time.times(Fixed::millionths(700_000)),
            ).cosine(),
        ).times(Fixed::millionths(500_000)).plus(Fixed::millionths(500_000));
        Color::rgba(
            Fixed::from_int(20).plus(noise.times(Fixed::from_int(25))).channel(),
            Fixed::from_int(15).plus(noise.times(Fixed::from_int(15))).channel(),
            Fixed::from_int(30).plus(noise.times(Fixed::from_int(20))).channel(),
            255,
        )
    }
}

impl PixelRule for ChaosNoise {
    open spec fn spec_shade(&self, old: Color, x: int, y: int) -> Color {
        self.spec_tint(old, x as u32, y as u32)
    }

    fn shade(&self, old: Color, x: u32, y: u32) -> (c: Color) {
        self.tint(old, x, y)
    }
}

/// A horizontal band of colour that a glitch leaves across the canvas.
#[derive(Debug, Clone, Copy, PartialEq, Eq, Structural)]
pub struct GlitchLine {
    pub y: u32,
    pub height: u32,
    pub color: Color,
}

impl GlitchLine {
    /// The rows of the band get the colour added.
    pub open spec fn spec_tint(&self, old: Color, px: u32, py: u32) -> Color {
        if self.y <= py && (py as u64) < (self.y as u64 + self.height as u64) as u64 {
            Color::blend_additive(old, self.color)
        } else {
            old
        }
    }

    #[verifier::when_used_as_spec(spec_tint)]
    pub fn tint(&self, old: Color, px: u32, py: u32) -> (r: Color)
        ensures
            r == self.spec_tint(old, px, py),
    {
        if self.y <= py && (py as u64) < (self.y as u64 + self.height as u64) as u64 {
            Color::blend_additive(old, self.color)
        } else {
            old
        }
    }
}

impl PixelRule for GlitchLine {
    open spec fn spec_shade(&self, old: Color, x: int, y: int) -> Color {
        self.spec_tint(old, x as u32, y as u32)
    }

    fn shade(&self, old: Color, x: u32, y: u32) -> (c: Color) {
        self.tint(old, x, y)
    }
}

/// A solid colour darkened toward the corners, with a faint texture.
pub struct SolidVignette {
    pub width: u32,
    pub height: u32,
    pub base: Color,
    pub strength: Fixed,
}

impl SolidVignette {
    /// Each channel of the base colour is scaled by the vignette, which takes off
    /// the square of the distance from the middle times the strength, at most
    /// three quarters, and by a texture within 2% of one.
    pub open spec fn spec_tint(&self, old: Color, px: u32, py: u32) -> Color {
        let cx = Fixed::ratio(self.width as i64, 2);
        let cy = Fixed::ratio(self.height as i64, 2);
        let dist = pixel_span(px, py, cx, cy).over(hypot(cx, cy));
        let vignette = Fixed::one().minus(
            dist.times(dist).times(self.strength).lower(Fixed::millionths(750_000)),
        );
        let noise = Fixed::from_int(px as i64).times(Fixed::millionths(500_000)).sine().times(
            Fixed::from_int(py as i64).times(Fixed::millionths(500_000)).cosine(),
        ).times(Fixed::millionths(20_000)).plus(Fixed::one());
        Color::rgba(
            Fixed::from_int(self.base.r as i64).times(vignette).times(noise).channel(),
            Fixed::from_int(self.base.g as i64).times(vignette).times(noise).channel(),
            Fixed::from_int(self.base.b as i64).times(vignette).times(noise).channel(),
            255,
        )
    }

    #[verifier::when_used_as_spec(spec_tint)]
    pub fn tint(&self, old: Color, px: u32, py: u32) -> (r: Color)
        ensures
            r == self.spec_tint(old, px, py),
    {
        let cx = Fixed::ratio(self.width as i64, 2);
        let cy = Fixed::ratio(self.height as i64, 2);
        let dist = pixel_span(px, py, cx, cy).over(hypot(cx, cy));
        let vignette = Fixed::one().minus(
            dist.times(dist).times(self.strength).lower(Fixed::millionths(750_000)),
        );
        let noise = Fixed::from_int(px as i64).times(Fixed::millionths(500_000)).sine().times(
            Fixed::from_int(py as i64).times(Fixed::millionths(500_000)).cosine(),
        ).times(Fixed::millionths(20_000)).plus(Fixed::one());
        Color::rgba(
            Fixed::from_int(self.base.r as i64).times(vignette).times(noise).channel(),
            Fixed::from_int(self.base.g as i64).times(vignette).times(noise).channel(),
            Fixed::from_int(self.base.b as i64).times(vignette).times(noise).channel(),
            255,
        )
    }
}

impl PixelRule for SolidVignette {
    open spec fn spec_shade(&self, old: Color, x: int, y: int) -> Color {
        self.spec_tint(old, x as u32, y as u32)
    }

    fn shade(&self, old: Color, x: u32, y: u32) -> (c: Color) {
        self.tint(old, x, y)
    }
}

/// A radial wipe from one colour to another.
pub struct RevealWipe {
    pub width: u32,
    pub height: u32,
    pub progress: Fixed,
    pub primary: Color,
    pub secondary: Color,
}

impl RevealWipe {
    /// Distance of `(px, py)` from the middle of the canvas.
    pub open spec fn spec_dist(&self, px: u32, py: u32) -> Fixed {
        pixel_span(px, py, Fixed::ratio(self.width as i64, 2), Fixed::ratio(self.height as i64, 2))
    }

    #[verifier::when_used_as_spec(spec_dist)]
    pub fn dist(&self, px: u32, py: u32) -> (r: Fixed)
        ensures
            r == self.spec_dist(px, py),
    {
        pixel_span(px, py, Fixed::ratio(self.width as i64, 2), Fixed::ratio(self.height as i64, 2))
    }

    /// Radius of the wipe: the progress times 1.2 times the distance of a corner
    /// from the middle.
    pub open spec fn spec_radius(&self) -> Fixed {
        hypot(Fixed::ratio(self.width as i64, 2), Fixed::ratio(self.height as i64, 2)).times(
            Fixed::millionths(1_200_000),
        ).times(self.progress)
    }

    #[verifier::when_used_as_spec(spec_radius)]
    pub fn radius(&self) -> (r: Fixed)
        ensures
            r == self.spec_radius(),
    {
        hypot(Fixed::ratio(self.width as i64, 2), Fixed::ratio(self.height as i64, 2)).times(
            Fixed::millionths(1_200_000),
        ).times(self.progress)
    }

    /// Within the radius of the wipe less fifty pixels a pixel has the primary
    /// colour, beyond the radius the secondary one, and in between the two are
    /// blended.
    pub open spec fn spec_tint(&self, old: Color, px: u32, py: u32) -> Color {
        let dist = self.dist(px, py);
        let radius = self.radius();
        if dist.below(radius.minus(Fixed::from_int(50))) {
            self.primary
        } else if dist.below(radius) {
            Color::lerp_color(
                self.secondary,
                self.primary,
                radius.minus(dist).over(Fixed::from_int(50)),
            )
        } else {
            self.secondary
        }
    }

    #[verifier::when_used_as_spec(spec_tint)]
    pub fn tint(&self, old: Color, px: u32, py: u32) -> (r: Color)
        ensures
            r == self.spec_tint(old, px, py),
    {
        let dist = self.dist(px, py);
        let radius = self.radius();
        if dist.below(radius.minus(Fixed::from_int(50))) {
            self.primary
        } else if dist.below(radius) {
            Color::lerp_color(
                self.secondary,
                self.primary,
                radius.minus(dist).over(Fixed::from_int(50)),
            )
        } else {
            self.secondary
        }
    }
}

impl PixelRule for RevealWipe {
    open spec fn spec_shade(&self, old: Color, x: int, y: int) -> Color {
        self.spec_tint(old, x as u32, y as u32)
    }

    fn shade(&self, old: Color, x: u32, y: u32) -> (c: Color) {
        self.tint(old, x, y)
    }
}

/// The glowing edge of a radial wipe.
pub struct RevealGlow {
    pub width: u32,
    pub height: u32,
    pub progress: Fixed,
}

impl RevealGlow {
    /// Within thirty pixels of the edge of the wipe a pixel is lifted toward a
    /// warm white, the more the closer to the edge it lies.
    pub open spec fn spec_tint(&self, old: Color, px: u32, py: u32) -> Color {
        let wipe = RevealWipe {
            width: self.width,
            height: self.height,
            progress: self.progress,
            primary: old,
            secondary: old,
        };
        let gap = wipe.dist(px, py).minus(wipe.radius()).magnitude();
        if gap.below(Fixed::from_int(30)) {
            let glow = Fixed::one().minus(gap.over(Fixed::from_int(30))).times(Fixed::from_int(100));
            Color::rgba(
                Fixed::from_int(old.r as i64).plus(glow).channel(),
                Fixed::from_int(old.g as i64).plus(glow.times(Fixed::millionths(800_000))).channel(),
                Fixed::from_int(old.b as i64).plus(glow.times(Fixed::millionths(600_000))).channel(),
                255,
            )
        } else {
            old
        }
    }

    #[verifier::when_used_as_spec(spec_tint)]
    pub fn tint(&self, old: Color, px: u32, py: u32) -> (r: Color)
        ensures
            r == self.spec_tint(old, px, py),
    {
        let wipe = RevealWipe {
            width: self.width,
            height: self.height,
            progress: self.progress,
            primary: old,
            secondary: old,
        };
        let gap = wipe.dist(px, py).minus(wipe.radius()).magnitude();
        if gap.below(Fixed::from_int(30)) {
            let glow = Fixed::one().minus(gap.over(Fixed::from_int(30))).times(Fixed::from_int(100));
            Color::rgba(
                Fixed::from_int(old.r as i64).plus(glow).channel(),
                Fixed::from_int(old.g as i64).plus(glow.times(Fixed::millionths(800_000))).channel(),
                Fixed::from_int(old.b as i64).plus(glow.times(Fixed::millionths(600_000))).channel(),
                255,
            )
        } else {
            old
        }
    }
}

impl PixelRule for RevealGlow {
    open spec fn spec_shade(&self, old: Color, x: int, y: int) -> Color {
        self.spec_tint(old, x as u32, y as u32)
    }

    fn shade(&self, old: Color, x: u32, y: u32) -> (c: Color) {
        self.tint(old, x, y)
    }
}

/// The base of the dark scene: near black, a little lighter toward the
/// bottom.
pub struct DarkBase {
    pub height: u32,
}

impl DarkBase {
    /// Row `py` has a level that rises linearly from the top to the bottom.
    pub open spec fn spec_tint(&self, old: Color, px: u32, py: u32) -> Color {
        let g = Fixed::ratio(py as i64, self.height as i64);
        Color::rgba(
            Fixed::from_int(10).plus(g.times(Fixed::from_int(15))).channel(),
            Fixed::from_int(8).plus(g.times(Fixed::from_int(10))).channel(),
            Fixed::from_int(15).plus(g.times(Fixed::from_int(20))).channel(),
            255,
        )
    }

    #[verifier::when_used_as_spec(spec_tint)]
    pub fn tint(&self, old: Color, px: u32, py: u32) -> (r: Color)
        ensures
            r == self.spec_tint(old, px, py),
    {
        let g = Fixed::ratio(py as i64, self.height as i64);
        Color::rgba(
            Fixed::from_int(10).plus(g.times(Fixed::from_int(15))).channel(),
            Fixed::from_int(8).plus(g.times(Fixed::from_int(10))).channel(),
            Fixed::from_int(15).plus(g.times(Fixed::from_int(20))).channel(),
            255,
        )
    }
}

impl PixelRule for DarkBase {
    open spec fn spec_shade(&self, old: Color, x: int, y: int) -> Color {
        self.spec_tint(old, x as u32, y as u32)
    }

    fn shade(&self, old: Color, x: u32, y: u32) -> (c: Color) {
        self.tint(old, x, y)
    }
}

/// A coloured light that falls off quadratically from its centre.
pub struct Light {
    pub cx: Fixed,
    pub cy: Fixed,
    pub color: Color,
    pub radius: Fixed,
}

impl Light {
    /// Within the radius each channel gains the channel of the light times the
    /// square of `1 - dist / radius` times the alpha of the light as a fraction.
    pub open spec fn spec_tint(&self, old: Color, px: u32, py: u32) -> Color {
        let dist = pixel_span(px, py, self.cx, self.cy);
        if dist.below(self.radius) {
            let falloff = Fixed::one().minus(dist.over(self.radius));
            let gain = falloff.times(falloff).times(Fixed::ratio(self.color.a as i64, 255));
            Color::rgba(
                Fixed::from_int(old.r as i64).plus(Fixed::from_int(self.color.r as i64).times(gain)).channel(),
                Fixed::from_int(old.g as i64).plus(Fixed::from_int(self.color.g as i64).times(gain)).channel(),
                Fixed::from_int(old.b as i64).plus(Fixed::from_int(self.color.b as i64).times(gain)).channel(),
                255,
            )
        } else {
            old
        }
    }

    #[verifier::when_used_as_spec(spec_tint)]
    pub fn tint(&self, old: Color, px: u32, py: u32) -> (r: Color)
        ensures
            r == self.spec_tint(old, px, py),
    {
        let dist = pixel_span(px, py, self.cx, self.cy);
        if dist.below(self.radius) {
            let falloff = Fixed::one().minus(dist.over(self.radius));
            let gain = falloff.times(falloff).times(Fixed::ratio(self.color.a as i64, 255));
            Color::rgba(
                Fixed::from_int(old.r as i64).plus(Fixed::from_int(self.color.r as i64).times(gain)).channel(),
                Fixed::from_int(old.g as i64).plus(Fixed::from_int(self.color.g as i64).times(gain)).channel(),
                Fixed::from_int(old.b as i64).plus(Fixed::from_int(self.color.b as i64).times(gain)).channel(),
                255,
            )
        } else {
            old
        }
    }
}

impl PixelRule for Light {
    open spec fn spec_shade(&self, old: Color, x: int, y: int) -> Color {
        self.spec_tint(old, x as u32, y as u32)
    }

    fn shade(&self, old: Color, x: u32, y: u32) -> (c: Color) {
        self.tint(old, x, y)
    }
}

/// The colour of the beam, glitch line or burst of index `i`: the four
/// colours of the game in turn; `soft` picks the pastel set of the bursts.
pub open spec fn spec_game_color(i: u32, soft: bool, alpha: u8) -> Color {
    if soft {
        if i % 4 == 0 {
            Color::rgba(255, 100, 100, alpha)
        } else if i % 4 == 1 {
            Color::rgba(100, 150, 255, alpha)
        } else if i % 4 == 2 {
            Color::rgba(100, 255, 150, alpha)
        } else {
            Color::rgba(255, 255, 100, alpha)
        }
    } else {
        if i % 4 == 0 {
            Color::rgba(237, 28, 36, alpha)
        } else if i % 4 == 1 {
            Color::rgba(0, 114, 188, alpha)
        } else if i % 4 == 2 {
            Color::rgba(0, 166, 81, alpha)
        } else {
            Color::rgba(255, 237, 0, alpha)
        }
    }
}

#[verifier::when_used_as_spec(spec_game_color)]
pub fn game_color(i: u32, soft: bool, alpha: u8) -> (c: Color)
    ensures
        c == spec_game_color(i, soft, alpha),
{
    if soft {
        if i % 4 == 0 {
            Color::rgba(255, 100, 100, alpha)
        } else if i % 4 == 1 {
            Color::rgba(100, 150, 255, alpha)
        } else if i % 4 == 2 {
            Color::rgba(100, 255, 150, alpha)
        } else {
            Color::rgba(255, 255, 100, alpha)
        }
    } else {
        if i % 4 == 0 {
            Color::rgba(237, 28, 36, alpha)
        } else if i % 4 == 1 {
            Color::rgba(0, 114, 188, alpha)
        } else if i % 4 == 2 {
            Color::rgba(0, 166, 81, alpha)
        } else {
            Color::rgba(255, 237, 0, alpha)
        }
    }
}

/// The glitch line that a generator in the state `state` draws on a canvas
/// of `height` rows, and the state afterwards. Four numbers are drawn in
/// turn: row, height of the band, colour and a shift that is not used.
pub open spec fn spec_glitch_line(state: Seq<u8>, height: u32) -> (GlitchLine, Seq<u8>) {
    let row = draw_below(state, if height == 0 { 1 } else { height });
    let band = draw_below(row.1, 13);
    let color = draw_below(band.1, 4);
    let shift = draw_below(color.1, 60);
    (
        GlitchLine { y: row.0, height: (2 + band.0 % 13) as u32, color: spec_game_color(color.0, false, 120) },
        shift.1,
    )
}

/// The first `n` glitch lines that a generator draws, and its state
/// afterwards.
pub open spec fn spec_glitch_lines(state: Seq<u8>, height: u32, n: nat) -> (Seq<GlitchLine>, Seq<u8>)
    decreases n,
{
    if n == 0 {
        (Seq::<GlitchLine>::empty(), state)
    } else {
        let before = spec_glitch_lines(state, height, (n - 1) as nat);
        let next = spec_glitch_line(before.1, height);
        (before.0.push(next.0), next.1)
    }
}

/// The burst of light that a generator in the state `state` draws, and the
/// state afterwards. Four numbers are drawn in turn: column, row, radius
/// and colour.
pub open spec fn spec_burst(state: Seq<u8>, width: u32, height: u32) -> (SoftCircle, Seq<u8>) {
    let column = draw_below(state, if width == 0 { 1 } else { width });
    let row = draw_below(column.1, if height == 0 { 1 } else { height });
    let radius = draw_below(row.1, 70);
    let color = draw_below(radius.1, 4);
    (
        SoftCircle {
            cx: Fixed::from_int(column.0 as i64),
            cy: Fixed::from_int(row.0 as i64),
            radius: Fixed::from_int((30 + radius.0 % 70) as i64),
            color: spec_game_color(color.0, true, 60),
        },
        color.1,
    )
}

/// The first `n` bursts that a generator draws, and its state afterwards.
pub open spec fn spec_bursts(state: Seq<u8>, width: u32, height: u32, n: nat) -> (Seq<SoftCircle>, Seq<u8>)
    decreases n,
{
    if n == 0 {
        (Seq::<SoftCircle>::empty(), state)
    } else {
        let before = spec_bursts(state, width, height, (n - 1) as nat);
        let next = spec_burst(before.1, width, height);
        (before.0.push(next.0), next.1)
    }
}

impl Backgrounds {
    /// The beam of index `i` of the themed background: it sways across the canvas
    /// with a sine of the time, each beam a step of phase on.
    pub open spec fn spec_beam(width: u32, time: Fixed, i: u32) -> DiagonalBeam {
        DiagonalBeam {
            x_offset: swing(
                time.times(Fixed::millionths(500_000)).plus(
                    Fixed::from_int(i as i64).times(Fixed::millionths(1_500_000)),
                ),
            ).times(Fixed::from_int(width as i64)).times(Fixed::millionths(1_500_000)).minus(
                Fixed::from_int(width as i64).times(Fixed::millionths(250_000)),
            ).pixels(),
            color: game_color(i, false, 35),
            half_width: 80,
            slope: Fixed::millionths(300_000),
        }
    }

    #[verifier::when_used_as_spec(spec_beam)]
    pub fn beam(width: u32, time: Fixed, i: u32) -> (r: DiagonalBeam)
        ensures
            r == Backgrounds::spec_beam(width, time, i),
    {
        DiagonalBeam {
            x_offset: swing(
                time.times(Fixed::millionths(500_000)).plus(
                    Fixed::from_int(i as i64).times(Fixed::millionths(1_500_000)),
                ),
            ).times(Fixed::from_int(width as i64)).times(Fixed::millionths(1_500_000)).minus(
                Fixed::from_int(width as i64).times(Fixed::millionths(250_000)),
            ).pixels(),
            color: game_color(i, false, 35),
            half_width: 80,
            slope: Fixed::millionths(300_000),
        }
    }
    /// The pixel `(px, py)` after the first `n` beams.
    pub open spec fn spec_beams(
        width: u32,
        time: Fixed,
        acc: Color,
        px: int,
        py: int,
        n: nat,
    ) -> Color
        decreases n,
    {
        if n == 0 || n > u32::MAX {
            acc
        } else {
            Backgrounds::spec_beam(width, time, (n - 1) as u32).spec_shade(
                Backgrounds::spec_beams(
                width,
                time,
                    acc,
                    px,
                    py,
                    (n - 1) as nat,
                ),
                px,
                py,
            )
        }
    }

    /// The floating particle of index `i`: a soft white dot on a periodic path
    /// whose brightness pulses with time.
    pub open spec fn spec_particle(width: u32, height: u32, time: Fixed, i: usize) -> SoftCircle {
        SoftCircle {
            cx: swing(
                count_fixed(i).times(Fixed::millionths(7_300_000)).times(Fixed::millionths(13_700_000)).plus(
                    time.times(Fixed::millionths(100_000)),
                ),
            ).times(Fixed::from_int(width as i64)),
            cy: coswing(
                count_fixed(i).times(Fixed::millionths(7_300_000)).times(Fixed::millionths(17_300_000)).plus(
                    time.times(Fixed::millionths(150_000)),
                ),
            ).times(Fixed::from_int(height as i64)),
            radius: Fixed::from_int(2).plus(
                count_fixed(i).times(Fixed::millionths(7_300_000)).times(
                    Fixed::millionths(3_100_000),
                ).sine().magnitude().times(Fixed::from_int(4)),
            ),
            color: Color::rgba(
                255,
                255,
                255,
                swing(
                    time.times(Fixed::from_int(2)).plus(
                        count_fixed(i).times(Fixed::millionths(7_300_000)),
                    ),
                ).times(Fixed::from_int(80)).channel(),
            ),
        }
    }

    #[verifier::when_used_as_spec(spec_particle)]
    pub fn particle(width: u32, height: u32, time: Fixed, i: usize) -> (r: SoftCircle)
        ensures
            r == Backgrounds::spec_particle(width, height, time, i),
    {
        SoftCircle {
            cx: swing(
                count_fixed(i).times(Fixed::millionths(7_300_000)).times(Fixed::millionths(13_700_000)).plus(
                    time.times(Fixed::millionths(100_000)),
                ),
            ).times(Fixed::from_int(width as i64)),
            cy: coswing(
                count_fixed(i).times(Fixed::millionths(7_300_000)).times(Fixed::millionths(17_300_000)).plus(
                    time.times(Fixed::millionths(150_000)),
                ),
            ).times(Fixed::from_int(height as i64)),
            radius: Fixed::from_int(2).plus(
                count_fixed(i).times(Fixed::millionths(7_300_000)).times(
                    Fixed::millionths(3_100_000),
                ).sine().magnitude().times(Fixed::from_int(4)),
            ),
            color: Color::rgba(
                255,
                255,
                255,
                swing(
                    time.times(Fixed::from_int(2)).plus(
                        count_fixed(i).times(Fixed::millionths(7_300_000)),
                    ),
                ).times(Fixed::from_int(80)).channel(),
            ),
        }
    }
    /// The pixel `(px, py)` after the first `n` floating particles.
    pub open spec fn spec_particles(
        width: u32,
        height: u32,
        time: Fixed,
        acc: Color,
        px: int,
        py: int,
        n: nat,
    ) -> Color
        decreases n,
    {
        if n == 0 || n > usize::MAX {
            acc
        } else {
            Backgrounds::spec_particle(width, height, time, (n - 1) as usize).spec_shade(
                Backgrounds::spec_particles(
                width,
                height,
                time,
                    acc,
                    px,
                    py,
                    (n - 1) as nat,
                ),
                px,
                py,
            )
        }
    }

    /// Adds `count` floating particles to `img`.
#[verifier::rlimit(50)]
    pub fn add_floating_particles(img: &mut Canvas, time: Fixed, count: usize)
        ensures
            final(img).spec_width() == old(img).spec_width(),
            final(img).spec_height() == old(img).spec_height(),
            forall|x: int, y: int|
                final(img).contains(x, y) ==> #[trigger] final(img).at(x, y)
                    == Backgrounds::spec_particles(
                    old(img).spec_width(),
                    old(img).spec_height(),
                    time,
                    old(img).at(x, y),
                    x,
                    y,
                    count as nat,
                ),
    {
        let w: u32 = img.width();
        let h: u32 = img.height();
        let mut i: usize = 0;
        while i < count
            invariant
                i <= count,
                img.spec_width() == old(img).spec_width() == w,
                img.spec_height() == old(img).spec_height() == h,
                forall|x: int, y: int|
                    img.contains(x, y) ==> #[trigger] img.at(x, y) == Backgrounds::spec_particles(
                        w,
                        h,
                        time,
                        old(img).at(x, y),
                        x,
                        y,
                        i as nat,
                    ),
            decreases count - i,
        {
            let dot = Backgrounds::particle(w, h, time, i);
            soft_circle(img, dot.cx, dot.cy, dot.radius, dot.color);
            i = i + 1;
        }
    }

    /// The pixel `(px, py)` of the themed background.
    pub open spec fn spec_uno_theme(width: u32, height: u32, time: Fixed, px: int, py: int) -> Color {
        Backgrounds::spec_particles(
            width,
            height,
            time,
            Backgrounds::spec_beams(
                width,
                time,
                (ThemeBase { width, height }).spec_shade(Color::transparent(), px, py),
                px,
                py,
                4,
            ),
            px,
            py,
            20,
        )
    }

    /// The themed background: a radial gradient, four swaying beams in the
    /// colours of the game and twenty floating particles.
#[verifier::rlimit(50)]
    pub fn uno_theme(width: u32, height: u32, time: Fixed) -> (img: Canvas)
        requires
            fits_memory(width as int, height as int),
        ensures
            img.spec_width() == width,
            img.spec_height() == height,
            forall|x: int, y: int|
                img.contains(x, y) ==> #[trigger] img.at(x, y) == Backgrounds::spec_uno_theme(
                    width,
                    height,
                    time,
                    x,
                    y,
                ),
    {
        let mut img = Canvas::new(width, height);
        let base = ThemeBase { width, height };
        img.paint(&base);
        let ghost painted = img;
        let mut i: u32 = 0;
        while i < 4
            invariant
                i <= 4,
                img.spec_width() == width,
                img.spec_height() == height,
                painted.spec_width() == width,
                painted.spec_height() == height,
                forall|x: int, y: int|
                    img.contains(x, y) ==> #[trigger] img.at(x, y) == Backgrounds::spec_beams(
                        width,
                        time,
                        painted.at(x, y),
                        x,
                        y,
                        i as nat,
                    ),
            decreases 4 - i,
        {
            let beam = Backgrounds::beam(width, time, i);
            diagonal_beam(&mut img, beam.x_offset, beam.color, beam.half_width, beam.slope);
            i = i + 1;
        }
        Backgrounds::add_floating_particles(&mut img, time, 20);
        img
    }

    /// The pixel `(px, py)` of a spotlight scene.
    pub open spec fn spec_spotlight(
        width: u32,
        height: u32,
        spot_x: Fixed,
        spot_y: Fixed,
        intensity: Fixed,
        px: int,
        py: int,
    ) -> Color {
        (RimLight { width, height, intensity: Fixed::millionths(700_000) }).spec_shade(
            (Spotlight { width, height, spot_x, spot_y, intensity }).spec_shade(
                Color::transparent(),
                px,
                py,
            ),
            px,
            py,
        )
    }

    /// A dark scene lit by a warm spot at the fractions `(spot_x, spot_y)` of
    /// the canvas, with a faint light along the rim.
#[verifier::rlimit(50)]
    pub fn spotlight(width: u32, height: u32, spot_x: Fixed, spot_y: Fixed, intensity: Fixed) -> (img: Canvas)
        requires
            fits_memory(width as int, height as int),
        ensures
            img.spec_width() == width,
            img.spec_height() == height,
            forall|x: int, y: int|
                img.contains(x, y) ==> #[trigger] img.at(x, y) == Backgrounds::spec_spotlight(
                    width,
                    height,
                    spot_x,
                    spot_y,
                    intensity,
                    x,
                    y,
                ),
    {
        let mut img = Canvas::new(width, height);
        let spot = Spotlight { width, height, spot_x, spot_y, intensity };
        img.paint(&spot);
        Backgrounds::add_rim_light(&mut img, Fixed::millionths(700_000));
        img
    }

    /// Adds a faint light along the rim of `img`.
    pub fn add_rim_light(img: &mut Canvas, intensity: Fixed)
        ensures
            final(img).spec_width() == old(img).spec_width(),
            final(img).spec_height() == old(img).spec_height(),
            forall|x: int, y: int|
                final(img).contains(x, y) ==> #[trigger] final(img).at(x, y) == (RimLight {
                    width: old(img).spec_width(),
                    height: old(img).spec_height(),
                    intensity,
                }).spec_shade(old(img).at(x, y), x, y),
    {
        let rim = RimLight { width: img.width(), height: img.height(), intensity };
        img.paint(&rim);
    }

    /// The pixel `(px, py)` after the first `n` glitch lines.
    pub open spec fn spec_lined(lines: Seq<GlitchLine>, acc: Color, px: int, py: int, n: nat) -> Color
        decreases n,
    {
        if n == 0 || n > lines.len() {
            acc
        } else {
            lines[n - 1].spec_shade(
                Backgrounds::spec_lined(lines, acc, px, py, (n - 1) as nat),
                px,
                py,
            )
        }
    }

    /// The pixel `(px, py)` after the first `n` bursts.
    pub open spec fn spec_burst_lit(bursts: Seq<SoftCircle>, acc: Color, px: int, py: int, n: nat) -> Color
        decreases n,
    {
        if n == 0 || n > bursts.len() {
            acc
        } else {
            bursts[n - 1].spec_shade(
                Backgrounds::spec_burst_lit(bursts, acc, px, py, (n - 1) as nat),
                px,
                py,
            )
        }
    }

    /// The pixel `(px, py)` of the chaos background with the glitch lines
    /// and bursts given.
    pub open spec fn spec_chaos(
        time: Fixed,
        lines: Seq<GlitchLine>,
        bursts: Seq<SoftCircle>,
        px: int,
        py: int,
    ) -> Color {
        Backgrounds::spec_burst_lit(
            bursts,
            Backgrounds::spec_lined(
                lines,
                (ChaosNoise { time }).spec_shade(Color::transparent(), px, py),
                px,
                py,
                lines.len(),
            ),
            px,
            py,
            bursts.len(),
        )
    }

    /// The chaos background with the glitch lines and bursts given: drifting
    /// noise, then the lines and the bursts added in turn.
#[verifier::rlimit(50)]
    pub fn chaos_with(width: u32, height: u32, time: Fixed, lines: &Vec<GlitchLine>, bursts: &Vec<SoftCircle>) -> (img: Canvas)
        requires
            fits_memory(width as int, height as int),
        ensures
            img.spec_width() == width,
            img.spec_height() == height,
            forall|x: int, y: int|
                img.contains(x, y) ==> #[trigger] img.at(x, y) == Backgrounds::spec_chaos(
                    time,
                    lines@,
                    bursts@,
                    x,
                    y,
                ),
    {
        let mut img = Canvas::new(width, height);
        let noise = ChaosNoise { time };
        img.paint(&noise);
        let ghost painted = img;
        let mut i: usize = 0;
        while i < lines.len()
            invariant
                i <= lines@.len(),
                img.spec_width() == width,
                img.spec_height() == height,
                painted.spec_width() == width,
                painted.spec_height() == height,
                forall|x: int, y: int|
                    img.contains(x, y) ==> #[trigger] img.at(x, y) == Backgrounds::spec_lined(
                        lines@,
                        painted.at(x, y),
                        x,
                        y,
                        i as nat,
                    ),
            decreases lines@.len() - i,
        {
            let line = &lines[i];
            img.paint_region(line, 0, line.y, width, grow(line.y, line.height));
            i = i + 1;
        }
        let ghost lined = img;
        let mut k: usize = 0;
        while k < bursts.len()
            invariant
                k <= bursts@.len(),
                img.spec_width() == width,
                img.spec_height() == height,
                lined.spec_width() == width,
                lined.spec_height() == height,
                forall|x: int, y: int|
                    img.contains(x, y) ==> #[trigger] img.at(x, y) == Backgrounds::spec_burst_lit(
                        bursts@,
                        lined.at(x, y),
                        x,
                        y,
                        k as nat,
                    ),
            decreases bursts@.len() - k,
        {
            let burst = &bursts[k];
            soft_circle(&mut img, burst.cx, burst.cy, burst.radius, burst.color);
            k = k + 1;
        }
        img
    }

    /// The seed of the generator of one frame of chaos: the seed of the scene
    /// plus five steps a second, wrapping around.
    pub open spec fn spec_frame_seed(seed: u64, time: Fixed) -> u64 {
        ((seed as u128 + time.times(Fixed::from_int(5)).extent() as u128) % 0x1_0000_0000_0000_0000) as u64
    }

    #[verifier::when_used_as_spec(spec_frame_seed)]
    pub fn frame_seed(seed: u64, time: Fixed) -> (r: u64)
        ensures
            r == Backgrounds::spec_frame_seed(seed, time),
    {
        ((seed as u128 + time.times(Fixed::from_int(5)).extent() as u128) % 0x1_0000_0000_0000_0000) as u64
    }
    /// Number of glitch lines at `time`: eight, and thirteen at the instants
    /// where the sine of three times the time reaches one.
    pub open spec fn spec_line_count(time: Fixed) -> u32 {
        (8 + 5 * (time.times(Fixed::from_int(3)).sine().magnitude().extent() % 2)) as u32
    }

    #[verifier::when_used_as_spec(spec_line_count)]
    pub fn line_count(time: Fixed) -> (r: u32)
        ensures
            r == Backgrounds::spec_line_count(time),
    {
        (8 + 5 * (time.times(Fixed::from_int(3)).sine().magnitude().extent() % 2)) as u32
    }

    /// Draws one glitch line from the generator.
    pub fn draw_glitch_line(rng: &mut SeededRng, height: u32) -> (line: GlitchLine)
        ensures
            line == spec_glitch_line(old(rng).state(), height).0,
            final(rng).state() == spec_glitch_line(old(rng).state(), height).1,
    {
        let row: u32 = rng.below(if height == 0 { 1 } else { height });
        let band: u32 = rng.below(13);
        let color: u32 = rng.below(4);
        let _shift: u32 = rng.below(60);
        GlitchLine { y: row, height: 2 + band % 13, color: game_color(color, false, 120) }
    }

    /// Draws one burst of light from the generator.
    pub fn draw_burst(rng: &mut SeededRng, width: u32, height: u32) -> (burst: SoftCircle)
        ensures
            burst == spec_burst(old(rng).state(), width, height).0,
            final(rng).state() == spec_burst(old(rng).state(), width, height).1,
    {
        let column: u32 = rng.below(if width == 0 { 1 } else { width });
        let row: u32 = rng.below(if height == 0 { 1 } else { height });
        let radius: u32 = rng.below(70);
        let color: u32 = rng.below(4);
        SoftCircle {
            cx: Fixed::from_int(column as i64),
            cy: Fixed::from_int(row as i64),
            radius: Fixed::from_int((30 + radius % 70) as i64),
            color: game_color(color, true, 60),
        }
    }

    /// The glitch lines of the frame of chaos at `time`.
    pub open spec fn spec_chaos_lines(height: u32, time: Fixed, seed: u64) -> (Seq<GlitchLine>, Seq<u8>) {
        spec_glitch_lines(
            seeded_state(Backgrounds::spec_frame_seed(seed, time)),
            height,
            Backgrounds::spec_line_count(time) as nat,
        )
    }

    /// The bursts of the frame of chaos at `time`: three to six of them,
    /// drawn after the glitch lines.
    pub open spec fn spec_chaos_bursts(width: u32, height: u32, time: Fixed, seed: u64) -> Seq<SoftCircle> {
        let after_lines = Backgrounds::spec_chaos_lines(height, time, seed).1;
        spec_bursts(
            draw_below(after_lines, 4).1,
            width,
            height,
            (3 + draw_below(after_lines, 4).0 % 4) as nat,
        ).0
    }

    /// The chaos background at `time`: what `chaos_with` makes of the glitch
    /// lines and bursts that follow from the seed and the time.
#[verifier::rlimit(50)]
    pub fn chaos(width: u32, height: u32, time: Fixed, seed: u64) -> (img: Canvas)
        requires
            fits_memory(width as int, height as int),
        ensures
            img.spec_width() == width,
            img.spec_height() == height,
            forall|x: int, y: int|
                img.contains(x, y) ==> #[trigger] img.at(x, y) == Backgrounds::spec_chaos(
                    time,
                    Backgrounds::spec_chaos_lines(height, time, seed).0,
                    Backgrounds::spec_chaos_bursts(width, height, time, seed),
                    x,
                    y,
                ),
    {
        let mut rng = SeededRng::new(Backgrounds::frame_seed(seed, time));
        let ghost start = rng.state();
        let line_count: u32 = Backgrounds::line_count(time);
        let mut lines: Vec<GlitchLine> = Vec::new();
        let mut i: u32 = 0;
        while i < line_count
            invariant
                i <= line_count,
                lines@ == spec_glitch_lines(start, height, i as nat).0,
                rng.state() == spec_glitch_lines(start, height, i as nat).1,
            decreases line_count - i,
        {
            let line = Backgrounds::draw_glitch_line(&mut rng, height);
            lines.push(line);
            i = i + 1;
        }
        let ghost after_lines = rng.state();
        let burst_count: u32 = 3 + rng.below(4) % 4;
        let ghost before_bursts = rng.state();
        let mut bursts: Vec<SoftCircle> = Vec::new();
        let mut k: u32 = 0;
        while k < burst_count
            invariant
                k <= burst_count,
                bursts@ == spec_bursts(before_bursts, width, height, k as nat).0,
                rng.state() == spec_bursts(before_bursts, width, height, k as nat).1,
            decreases burst_count - k,
        {
            let burst = Backgrounds::draw_burst(&mut rng, width, height);
            bursts.push(burst);
            k = k + 1;
        }
        Backgrounds::chaos_with(width, height, time, &lines, &bursts)
    }

    /// A solid colour darkened toward the corners, with a faint texture.
    pub fn solid_with_vignette(width: u32, height: u32, base_color: Color, vignette_strength: Fixed) -> (img: Canvas)
        requires
            fits_memory(width as int, height as int),
        ensures
            img.spec_width() == width,
            img.spec_height() == height,
            forall|x: int, y: int|
                img.contains(x, y) ==> #[trigger] img.at(x, y) == (SolidVignette {
                    width,
                    height,
                    base: base_color,
                    strength: vignette_strength,
                }).spec_shade(Color::transparent(), x, y),
    {
        let mut img = Canvas::new(width, height);
        let rule = SolidVignette { width, height, base: base_color, strength: vignette_strength };
        img.paint(&rule);
        img
    }

    /// The pixel `(px, py)` of a radial wipe with its glowing edge.
    pub open spec fn spec_epic_reveal(
        width: u32,
        height: u32,
        progress: Fixed,
        primary: Color,
        secondary: Color,
        px: int,
        py: int,
    ) -> Color {
        (RevealGlow { width, height, progress }).spec_shade(
            (RevealWipe { width, height, progress, primary, secondary }).spec_shade(
                Color::transparent(),
                px,
                py,
            ),
            px,
            py,
        )
    }

    /// A radial wipe from `secondary` to `primary` that has spread as far as
    /// `progress`, with a glow along its edge.
#[verifier::rlimit(50)]
    pub fn epic_reveal(width: u32, height: u32, progress: Fixed, primary: Color, secondary: Color) -> (img: Canvas)
        requires
            fits_memory(width as int, height as int),
        ensures
            img.spec_width() == width,
            img.spec_height() == height,
            forall|x: int, y: int|
                img.contains(x, y) ==> #[trigger] img.at(x, y) == Backgrounds::spec_epic_reveal(
                    width,
                    height,
                    progress,
                    primary,
                    secondary,
                    x,
                    y,
                ),
    {
        let mut img = Canvas::new(width, height);
        let wipe = RevealWipe { width, height, progress, primary, secondary };
        img.paint(&wipe);
        let glow = RevealGlow { width, height, progress };
        img.paint(&glow);
        img
    }

    /// The light of index `i` of the dark scene: three lights that drift slowly
    /// with the time.
    pub open spec fn spec_dark_light(width: u32, height: u32, time: Fixed, i: u32) -> Light {
        if i % 3 == 0 {
            Light {
                cx: Fixed::from_int(width as i64).times(
                    Fixed::millionths(300_000).plus(
                        time.times(Fixed::millionths(200_000)).sine().times(Fixed::millionths(150_000)),
                    ),
                ),
                cy: Fixed::from_int(height as i64).times(Fixed::millionths(400_000)),
                color: Color::rgba(255, 100, 80, 50),
                radius: Fixed::from_int(400),
            }
        } else if i % 3 == 1 {
            Light {
                cx: Fixed::from_int(width as i64).times(
                    Fixed::millionths(700_000).plus(
                        time.times(Fixed::millionths(150_000)).cosine().times(Fixed::millionths(100_000)),
                    ),
                ),
                cy: Fixed::from_int(height as i64).times(Fixed::millionths(600_000)),
                color: Color::rgba(80, 100, 255, 40),
                radius: Fixed::from_int(350),
            }
        } else {
            Light {
                cx: Fixed::from_int(width as i64).times(Fixed::millionths(500_000)),
                cy: Fixed::from_int(height as i64).times(
                    Fixed::millionths(300_000).plus(
                        time.times(Fixed::millionths(100_000)).sine().times(Fixed::millionths(100_000)),
                    ),
                ),
                color: Color::rgba(255, 200, 80, 35),
                radius: Fixed::from_int(300),
            }
        }
    }

    #[verifier::when_used_as_spec(spec_dark_light)]
    pub fn dark_light(width: u32, height: u32, time: Fixed, i: u32) -> (r: Light)
        ensures
            r == Backgrounds::spec_dark_light(width, height, time, i),
    {
        if i % 3 == 0 {
            Light {
                cx: Fixed::from_int(width as i64).times(
                    Fixed::millionths(300_000).plus(
                        time.times(Fixed::millionths(200_000)).sine().times(Fixed::millionths(150_000)),
                    ),
                ),
                cy: Fixed::from_int(height as i64).times(Fixed::millionths(400_000)),
                color: Color::rgba(255, 100, 80, 50),
                radius: Fixed::from_int(400),
            }
        } else if i % 3 == 1 {
            Light {
                cx: Fixed::from_int(width as i64).times(
                    Fixed::millionths(700_000).plus(
                        time.times(Fixed::millionths(150_000)).cosine().times(Fixed::millionths(100_000)),
                    ),
                ),
                cy: Fixed::from_int(height as i64).times(Fixed::millionths(600_000)),
                color: Color::rgba(80, 100, 255, 40),
                radius: Fixed::from_int(350),
            }
        } else {
            Light {
                cx: Fixed::from_int(width as i64).times(Fixed::millionths(500_000)),
                cy: Fixed::from_int(height as i64).times(
                    Fixed::millionths(300_000).plus(
                        time.times(Fixed::millionths(100_000)).sine().times(Fixed::millionths(100_000)),
                    ),
                ),
                color: Color::rgba(255, 200, 80, 35),
                radius: Fixed::from_int(300),
            }
        }
    }
    /// The pixel `(px, py)` after the first `n` lights of the dark scene.
    pub open spec fn spec_dark_lights(
        width: u32,
        height: u32,
        time: Fixed,
        acc: Color,
        px: int,
        py: int,
        n: nat,
    ) -> Color
        decreases n,
    {
        if n == 0 || n > u32::MAX {
            acc
        } else {
            Backgrounds::spec_dark_light(width, height, time, (n - 1) as u32).spec_shade(
                Backgrounds::spec_dark_lights(
                width,
                height,
                time,
                    acc,
                    px,
                    py,
                    (n - 1) as nat,
                ),
                px,
                py,
            )
        }
    }

    /// The dark scene: a near-black gradient lit by three drifting lights.
#[verifier::rlimit(50)]
    pub fn dramatic_dark(width: u32, height: u32, time: Fixed) -> (img: Canvas)
        requires
            fits_memory(width as int, height as int),
        ensures
            img.spec_width() == width,
            img.spec_height() == height,
            forall|x: int, y: int|
                img.contains(x, y) ==> #[trigger] img.at(x, y) == Backgrounds::spec_dark_lights(
                    width,
                    height,
                    time,
                    (DarkBase { height }).spec_shade(Color::transparent(), x, y),
                    x,
                    y,
                    3,
                ),
    {
        let mut img = Canvas::new(width, height);
        let base = DarkBase { height };
        img.paint(&base);
        let ghost painted = img;
        let mut i: u32 = 0;
        while i < 3
            invariant
                i <= 3,
                img.spec_width() == width,
                img.spec_height() == height,
                painted.spec_width() == width,
                painted.spec_height() == height,
                forall|x: int, y: int|
                    img.contains(x, y) ==> #[trigger] img.at(x, y)
                        == Backgrounds::spec_dark_lights(
                        width,
                        height,
                        time,
                        painted.at(x, y),
                        x,
                        y,
                        i as nat,
                    ),
            decreases 3 - i,
        {
            let light = Backgrounds::dark_light(width, height, time, i);
            img.paint(&light);
            i = i + 1;
        }
        img
    }
}

} // verus!
