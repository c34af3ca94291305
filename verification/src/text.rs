//! Text overlays. Glyphs come from outside as a coverage mask with its
//! measurements; laying them out with shadow and outline happens here.

use vstd::prelude::*;
use vstd::string::*;
use crate::canvas::{
    fits_memory, Canvas, Overlay, PixelRule,
};
use crate::color::{lemma_blend_faded_whole, spec_blend_faded, spec_paint_over, Color};
use crate::fixed::Fixed;

verus! {

/// One line of text rasterised at one size: the alpha of `mask` is the
/// coverage of each pixel by the glyphs. The top-left corner of the line, the
/// point that the line is placed by, lies `left` columns and `top` rows into
/// the mask, so that glyphs may reach to the left of it and above it.
/// `advance` is the sum of the advance widths and `line_height` the height of
/// a line, both in pixels.
pub struct GlyphRun {
    pub mask: Canvas,
    pub left: u32,
    pub top: u32,
    pub advance: Fixed,
    pub line_height: Fixed,
}

impl GlyphRun {
    /// The run of no text: what is drawn where no font could be loaded.
    pub fn empty() -> (r: GlyphRun)
        ensures
            r.mask.spec_width() == 0,
            r.mask.spec_height() == 0,
            r.left == 0,
            r.top == 0,
            r.advance == Fixed::zero(),
            r.line_height == Fixed::zero(),
    {
        assert(32 * 0 * 0 == 0) by (nonlinear_arith);
        GlyphRun {
            mask: Canvas::new(0, 0),
            left: 0,
            top: 0,
            advance: Fixed::zero(),
            line_height: Fixed::zero(),
        }
    }

    pub open spec fn spec_text_width(&self) -> u32 {
        Fixed::from_int(self.advance.ceiling()).extent()
    }

    /// Width of the text in whole pixels, rounded up.
    #[verifier::when_used_as_spec(spec_text_width)]
    pub fn text_width(&self) -> (w: u32)
        ensures
            w == self.spec_text_width(),
    {
        Fixed::from_int(self.advance.ceiling()).extent()
    }

    pub open spec fn spec_text_height(&self) -> u32 {
        Fixed::from_int(self.line_height.ceiling()).extent()
    }

    /// Height of a line in whole pixels, rounded up.
    #[verifier::when_used_as_spec(spec_text_height)]
    pub fn text_height(&self) -> (h: u32)
        ensures
            h == self.spec_text_height(),
    {
        Fixed::from_int(self.line_height.ceiling()).extent()
    }
}

/// One channel of a pixel that glyphs cover by `m / 255`: the weighted sum
/// of what it held and the text colour, rounded down.
pub open spec fn spec_cover_channel(old: u8, ink: u8, m: u8) -> u8 {
    ((old as int * (255 - m as int) + ink as int * m as int) / 255) as u8
}

#[verifier::when_used_as_spec(spec_cover_channel)]
pub fn cover_channel(old: u8, ink: u8, m: u8) -> (c: u8)
    ensures
        c == spec_cover_channel(old, ink, m),
{
    proof {
        assert(0 <= (old as int) * (255 - m as int) + (ink as int) * (m as int) <= 255 * 255)
            by (nonlinear_arith)
            requires
                0 <= old <= 255,
                0 <= ink <= 255,
                0 <= m <= 255,
        ;
        assert(0 <= (old as int) * (255 - m as int) <= 255 * 255) by (nonlinear_arith)
            requires
                0 <= old <= 255,
                0 <= m <= 255,
        ;
        assert(0 <= (ink as int) * (m as int) <= 255 * 255) by (nonlinear_arith)
            requires
                0 <= ink <= 255,
                0 <= m <= 255,
        ;
    }
    let sum: u32 = old as u32 * (255 - m as u32) + ink as u32 * m as u32;
    (sum / 255) as u8
}

/// A pixel that glyphs cover by `m / 255`, all four channels alike.
pub open spec fn spec_cover(old: Color, ink: Color, m: u8) -> Color {
    Color {
        r: spec_cover_channel(old.r, ink.r, m),
        g: spec_cover_channel(old.g, ink.g, m),
        b: spec_cover_channel(old.b, ink.b, m),
        a: spec_cover_channel(old.a, ink.a, m),
    }
}

#[verifier::when_used_as_spec(spec_cover)]
pub fn cover(old: Color, ink: Color, m: u8) -> (c: Color)
    ensures
        c == spec_cover(old, ink, m),
{
    Color {
        r: cover_channel(old.r, ink.r, m),
        g: cover_channel(old.g, ink.g, m),
        b: cover_channel(old.b, ink.b, m),
        a: cover_channel(old.a, ink.a, m),
    }
}

/// One pass of a line of text in one colour, its top-left corner at
/// `(x, y)`.
pub struct GlyphLayer<'a> {
    pub mask: &'a Canvas,
    pub x: i64,
    pub y: i64,
    pub ink: Color,
}

impl<'a> GlyphLayer<'a> {
    /// Every pixel under the mask moves toward the text colour by the
    /// coverage that the mask holds for it.
    pub open spec fn spec_tint(&self, old: Color, px: u32, py: u32) -> Color {
        let lx = px as i128 - self.x as i128;
        let ly = py as i128 - self.y as i128;
        if 0 <= lx && lx <= u32::MAX as i128 && 0 <= ly && ly <= u32::MAX as i128 {
            match self.mask.pixel(lx as u32, ly as u32) {
                Some(m) => cover(old, self.ink, m.a),
                None => old,
            }
        } else {
            old
        }
    }

    #[verifier::when_used_as_spec(spec_tint)]
    pub fn tint(&self, old: Color, px: u32, py: u32) -> (r: Color)
        ensures
            r == self.spec_tint(old, px, py),
    {
        let lx = px as i128 - self.x as i128;
        let ly = py as i128 - self.y as i128;
        if 0 <= lx && lx <= u32::MAX as i128 && 0 <= ly && ly <= u32::MAX as i128 {
            match self.mask.pixel(lx as u32, ly as u32) {
                Some(m) => cover(old, self.ink, m.a),
                None => old,
            }
        } else {
            old
        }
    }
}

impl<'a> PixelRule for GlyphLayer<'a> {
    open spec fn spec_shade(&self, old: Color, x: int, y: int) -> Color {
        self.spec_tint(old, x as u32, y as u32)
    }

    fn shade(&self, old: Color, x: u32, y: u32) -> (c: Color) {
        self.tint(old, x, y)
    }
}

/// Draws one pass of a line of text onto `dest`.
pub fn draw_glyphs(dest: &mut Canvas, mask: &Canvas, x: i64, y: i64, ink: Color)
    ensures
        final(dest).spec_width() == old(dest).spec_width(),
        final(dest).spec_height() == old(dest).spec_height(),
        forall|i: int, j: int|
            final(dest).contains(i, j) ==> #[trigger] final(dest).at(i, j) == (GlyphLayer {
                mask,
                x,
                y,
                ink,
            }).spec_shade(old(dest).at(i, j), i, j),
{
    let rule = GlyphLayer { mask, x, y, ink };
    let x1: i128 = x as i128 + mask.width() as i128;
    let y1: i128 = y as i128 + mask.height() as i128;
    dest.paint_region(&rule, clip_wide(x as i128), clip_wide(y as i128), clip_wide(x1), clip_wide(y1));
}

fn clip_wide(v: i128) -> (r: u32)
    ensures
        r == if v < 0 {
            0
        } else if v > u32::MAX {
            u32::MAX
        } else {
            v as u32
        },
{
    if v < 0 {
        0
    } else if v > u32::MAX as i128 {
        u32::MAX
    } else {
        v as u32
    }
}

/// How a line of text is dressed: its colour, an outline and a drop shadow.
#[derive(Clone, Copy, Debug)]
pub struct TextStyle {
    pub color: Color,
    pub outline_color: Option<Color>,
    pub outline_width: u32,
    pub shadow: bool,
    pub shadow_offset: (i32, i32),
    pub shadow_color: Color,
}

/// Magnitude of a signed offset.
pub open spec fn spec_reach(v: i32) -> u32 {
    if v < 0 {
        (-(v as int)) as u32
    } else {
        v as u32
    }
}

#[verifier::when_used_as_spec(spec_reach)]
pub fn reach(v: i32) -> (r: u32)
    ensures
        r == spec_reach(v),
{
    if v < 0 {
        (-(v as i64)) as u32
    } else {
        v as u32
    }
}

/// The eight neighbours of a pixel in the order in which an outline is
/// stamped: column by column, top to bottom.
pub open spec fn spec_outline_offset(k: u32) -> (i64, i64) {
    if k == 0 {
        (-1i64, -1i64)
    } else if k == 1 {
        (-1i64, 0i64)
    } else if k == 2 {
        (-1i64, 1i64)
    } else if k == 3 {
        (0i64, -1i64)
    } else if k == 4 {
        (0i64, 1i64)
    } else if k == 5 {
        (1i64, -1i64)
    } else if k == 6 {
        (1i64, 0i64)
    } else {
        (1i64, 1i64)
    }
}

#[verifier::when_used_as_spec(spec_outline_offset)]
pub fn outline_offset(k: u32) -> (r: (i64, i64))
    ensures
        r == spec_outline_offset(k),
{
    if k == 0 {
        (-1i64, -1i64)
    } else if k == 1 {
        (-1i64, 0i64)
    } else if k == 2 {
        (-1i64, 1i64)
    } else if k == 3 {
        (0i64, -1i64)
    } else if k == 4 {
        (0i64, 1i64)
    } else if k == 5 {
        (1i64, -1i64)
    } else if k == 6 {
        (1i64, 0i64)
    } else {
        (1i64, 1i64)
    }
}

impl TextStyle {
    pub open spec fn spec_white_with_black_outline() -> TextStyle {
        TextStyle {
            color: Color::rgba(255, 255, 255, 255),
            outline_color: Some(Color::rgba(0, 0, 0, 255)),
            outline_width: 3,
            shadow: true,
            shadow_offset: (4, 4),
            shadow_color: Color::rgba(0, 0, 0, 180),
        }
    }

    /// White text with a black outline and a soft shadow: the default.
    #[verifier::when_used_as_spec(spec_white_with_black_outline)]
    pub fn white_with_black_outline() -> (s: TextStyle)
        ensures
            s == TextStyle::spec_white_with_black_outline(),
    {
        TextStyle {
            color: Color::rgba(255, 255, 255, 255),
            outline_color: Some(Color::rgba(0, 0, 0, 255)),
            outline_width: 3,
            shadow: true,
            shadow_offset: (4, 4),
            shadow_color: Color::rgba(0, 0, 0, 180),
        }
    }

    pub open spec fn spec_red_bold() -> TextStyle {
        TextStyle {
            color: Color::rgba(255, 50, 50, 255),
            outline_color: Some(Color::rgba(255, 255, 255, 255)),
            outline_width: 4,
            shadow: true,
            shadow_offset: (5, 5),
            shadow_color: Color::rgba(0, 0, 0, 200),
        }
    }

    /// Red text with a white outline.
    #[verifier::when_used_as_spec(spec_red_bold)]
    pub fn red_bold() -> (s: TextStyle)
        ensures
            s == TextStyle::spec_red_bold(),
    {
        TextStyle {
            color: Color::rgba(255, 50, 50, 255),
            outline_color: Some(Color::rgba(255, 255, 255, 255)),
            outline_width: 4,
            shadow: true,
            shadow_offset: (5, 5),
            shadow_color: Color::rgba(0, 0, 0, 200),
        }
    }

    pub open spec fn spec_yellow_impact() -> TextStyle {
        TextStyle {
            color: Color::rgba(255, 230, 50, 255),
            outline_color: Some(Color::rgba(0, 0, 0, 255)),
            outline_width: 5,
            shadow: true,
            shadow_offset: (6, 6),
            shadow_color: Color::rgba(0, 0, 0, 220),
        }
    }

    /// Yellow text with a heavy black outline.
    #[verifier::when_used_as_spec(spec_yellow_impact)]
    pub fn yellow_impact() -> (s: TextStyle)
        ensures
            s == TextStyle::spec_yellow_impact(),
    {
        TextStyle {
            color: Color::rgba(255, 230, 50, 255),
            outline_color: Some(Color::rgba(0, 0, 0, 255)),
            outline_width: 5,
            shadow: true,
            shadow_offset: (6, 6),
            shadow_color: Color::rgba(0, 0, 0, 220),
        }
    }

    pub open spec fn spec_blue_clean() -> TextStyle {
        TextStyle {
            color: Color::rgba(100, 180, 255, 255),
            outline_color: Some(Color::rgba(0, 0, 0, 255)),
            outline_width: 3,
            shadow: false,
            shadow_offset: (0, 0),
            shadow_color: Color::rgba(0, 0, 0, 0),
        }
    }

    /// Light blue text with a black outline and no shadow.
    #[verifier::when_used_as_spec(spec_blue_clean)]
    pub fn blue_clean() -> (s: TextStyle)
        ensures
            s == TextStyle::spec_blue_clean(),
    {
        TextStyle {
            color: Color::rgba(100, 180, 255, 255),
            outline_color: Some(Color::rgba(0, 0, 0, 255)),
            outline_width: 3,
            shadow: false,
            shadow_offset: (0, 0),
            shadow_color: Color::rgba(0, 0, 0, 0),
        }
    }

    pub open spec fn spec_plain(color: Color) -> TextStyle {
        TextStyle {
            color,
            outline_color: None,
            outline_width: 0,
            shadow: false,
            shadow_offset: (0, 0),
            shadow_color: Color::rgba(0, 0, 0, 0),
        }
    }

    /// Text in one colour with neither outline nor shadow.
    #[verifier::when_used_as_spec(spec_plain)]
    pub fn plain(color: Color) -> (s: TextStyle)
        ensures
            s == TextStyle::spec_plain(color),
    {
        TextStyle {
            color,
            outline_color: None,
            outline_width: 0,
            shadow: false,
            shadow_offset: (0, 0),
            shadow_color: Color::rgba(0, 0, 0, 0),
        }
    }

    /// Room left around the text for its outline and its shadow: the outline
    /// width plus the longer reach of the shadow offset.
    pub open spec fn spec_padding(&self) -> u64 {
        (self.outline_width + if spec_reach(self.shadow_offset.0) > spec_reach(
            self.shadow_offset.1,
        ) {
            spec_reach(self.shadow_offset.0)
        } else {
            spec_reach(self.shadow_offset.1)
        }) as u64
    }

    #[verifier::when_used_as_spec(spec_padding)]
    pub fn padding(&self) -> (p: u64)
        ensures
            p == self.spec_padding(),
            p <= 0x1_8000_0000,
    {
        let a: u32 = reach(self.shadow_offset.0);
        let b: u32 = reach(self.shadow_offset.1);
        self.outline_width as u64 + if a > b {
            a as u64
        } else {
            b as u64
        }
    }

    /// Length of one side of the image of a text that measures `extent`
    /// along it: the text, the padding on both sides and ten pixels more.
    pub open spec fn spec_side(&self, extent: u32) -> int {
        extent + 2 * self.spec_padding() + 10
    }

    /// The same length as an image extent.
    pub fn side(&self, extent: u32) -> (r: u32)
        requires
            self.spec_side(extent) <= u32::MAX,
        ensures
            r == self.spec_side(extent),
    {
        (extent as u64 + 2 * self.padding() + 10) as u32
    }
}

impl Default for TextStyle {
    fn default() -> (s: TextStyle)
        ensures
            s == TextStyle::spec_white_with_black_outline(),
    {
        TextStyle::white_with_black_outline()
    }
}

/// Lays out a line of text with its shadow, outline and fill.
pub struct TextRenderer;

impl TextRenderer {
    pub fn new() -> (r: TextRenderer) {
        TextRenderer
    }

    /// Width and height of the text in whole pixels, each rounded up.
    pub fn text_dimensions(&self, run: &GlyphRun) -> (d: (u32, u32))
        ensures
            d == (run.spec_text_width(), run.spec_text_height()),
    {
        (run.text_width(), run.text_height())
    }

    /// The pixel `(px, py)` once the shadow has been drawn over `acc`.
    pub open spec fn spec_shadowed(run: &GlyphRun, style: &TextStyle, acc: Color, px: int, py: int) -> Color {
        if style.shadow {
            (GlyphLayer {
                mask: &run.mask,
                x: (style.spec_padding() + style.shadow_offset.0 - run.left) as i64,
                y: (style.spec_padding() + style.shadow_offset.1 - run.top) as i64,
                ink: style.shadow_color,
            }).spec_shade(acc, px, py)
        } else {
            acc
        }
    }

    /// The pixel `(px, py)` after the first `k` stamps of the outline ring
    /// of the width `w`.
    pub open spec fn spec_ring(
        run: &GlyphRun,
        style: &TextStyle,
        ink: Color,
        acc: Color,
        px: int,
        py: int,
        w: u32,
        k: nat,
    ) -> Color
        decreases k,
    {
        if k == 0 || k > 8 {
            acc
        } else {
            (GlyphLayer {
                mask: &run.mask,
                x: (style.spec_padding() + spec_outline_offset((k - 1) as u32).0 * w - run.left) as i64,
                y: (style.spec_padding() + spec_outline_offset((k - 1) as u32).1 * w - run.top) as i64,
                ink,
            }).spec_shade(
                TextRenderer::spec_ring(run, style, ink, acc, px, py, w, (k - 1) as nat),
                px,
                py,
            )
        }
    }

    /// The pixel `(px, py)` after the first `n` outline rings, from the
    /// width one outward.
    pub open spec fn spec_rings(
        run: &GlyphRun,
        style: &TextStyle,
        ink: Color,
        acc: Color,
        px: int,
        py: int,
        n: nat,
    ) -> Color
        decreases n,
    {
        if n == 0 || n > u32::MAX {
            acc
        } else {
            TextRenderer::spec_ring(
                run,
                style,
                ink,
                TextRenderer::spec_rings(run, style, ink, acc, px, py, (n - 1) as nat),
                px,
                py,
                n as u32,
                8,
            )
        }
    }

    /// The pixel `(px, py)` once the outline has been drawn over `acc`.
    pub open spec fn spec_outlined(run: &GlyphRun, style: &TextStyle, acc: Color, px: int, py: int) -> Color {
        match style.outline_color {
            Some(ink) => TextRenderer::spec_rings(
                run,
                style,
                ink,
                acc,
                px,
                py,
                style.outline_width as nat,
            ),
            None => acc,
        }
    }

    /// The pixel `(px, py)` of the finished text image: on a blank canvas
    /// the shadow, over it the outline, over that the text itself.
    pub open spec fn spec_text_pixel(run: &GlyphRun, style: &TextStyle, px: int, py: int) -> Color {
        (GlyphLayer {
            mask: &run.mask,
            x: (style.spec_padding() - run.left) as i64,
            y: (style.spec_padding() - run.top) as i64,
            ink: style.color,
        }).spec_shade(
            TextRenderer::spec_outlined(
                run,
                style,
                TextRenderer::spec_shadowed(run, style, Color::transparent(), px, py),
                px,
                py,
            ),
            px,
            py,
        )
    }

    /// The image of one line of text in the given style, sized to hold the
    /// text with its outline and shadow.
#[verifier::rlimit(50)]
    pub fn render(&self, run: &GlyphRun, style: &TextStyle) -> (img: Canvas)
        requires
            style.spec_side(run.spec_text_width()) <= u32::MAX,
            style.spec_side(run.spec_text_height()) <= u32::MAX,
            fits_memory(
                style.spec_side(run.spec_text_width()),
                style.spec_side(run.spec_text_height()),
            ),
        ensures
            img.spec_width() == style.spec_side(run.spec_text_width()),
            img.spec_height() == style.spec_side(run.spec_text_height()),
            forall|x: int, y: int|
                img.contains(x, y) ==> #[trigger] img.at(x, y) == TextRenderer::spec_text_pixel(
                    run,
                    style,
                    x,
                    y,
                ),
    {
        let pad: u64 = style.padding();
        let width: u64 = run.text_width() as u64 + 2 * pad + 10;
        let height: u64 = run.text_height() as u64 + 2 * pad + 10;
        let mut img = Canvas::new(width as u32, height as u32);
        if style.shadow {
            draw_glyphs(
                &mut img,
                &run.mask,
                pad as i64 + style.shadow_offset.0 as i64 - run.left as i64,
                pad as i64 + style.shadow_offset.1 as i64 - run.top as i64,
                style.shadow_color,
            );
        }
        match style.outline_color {
            Some(ink) => {
                let ghost base = img;
                let mut n: u32 = 0;
                while n < style.outline_width
                    invariant
                        n <= style.outline_width,
                        pad == style.spec_padding(),
                        pad <= 0x1_8000_0000,
                        img.spec_width() == width,
                        img.spec_height() == height,
                        base.spec_width() == width,
                        base.spec_height() == height,
                        forall|x: int, y: int|
                            img.contains(x, y) ==> #[trigger] img.at(x, y)
                                == TextRenderer::spec_rings(
                                run,
                                style,
                                ink,
                                base.at(x, y),
                                x,
                                y,
                                n as nat,
                            ),
                    decreases style.outline_width - n,
                {
                    let w: u32 = n + 1;
                    let mut k: u32 = 0;
                    while k < 8
                        invariant
                            k <= 8,
                            w == n + 1,
                            n < style.outline_width,
                            pad == style.spec_padding(),
                            pad <= 0x1_8000_0000,
                            img.spec_width() == width,
                            img.spec_height() == height,
                            base.spec_width() == width,
                            base.spec_height() == height,
                            forall|x: int, y: int|
                                img.contains(x, y) ==> #[trigger] img.at(x, y)
                                    == TextRenderer::spec_ring(
                                    run,
                                    style,
                                    ink,
                                    TextRenderer::spec_rings(
                                        run,
                                        style,
                                        ink,
                                        base.at(x, y),
                                        x,
                                        y,
                                        n as nat,
                                    ),
                                    x,
                                    y,
                                    w,
                                    k as nat,
                                ),
                        decreases 8 - k,
                    {
                        let off = outline_offset(k);
                        assert(-1 <= off.0 <= 1 && -1 <= off.1 <= 1);
                        assert(-0x1_0000_0000 <= off.0 * w <= 0x1_0000_0000) by (nonlinear_arith)
                            requires
                                -1 <= off.0 <= 1,
                                0 <= w <= 0xffff_ffff,
                        ;
                        assert(-0x1_0000_0000 <= off.1 * w <= 0x1_0000_0000) by (nonlinear_arith)
                            requires
                                -1 <= off.1 <= 1,
                                0 <= w <= 0xffff_ffff,
                        ;
                        draw_glyphs(
                            &mut img,
                            &run.mask,
                            pad as i64 + off.0 * (w as i64) - run.left as i64,
                            pad as i64 + off.1 * (w as i64) - run.top as i64,
                            ink,
                        );
                        k = k + 1;
                    }
                    n = n + 1;
                }
            },
            None => {},
        }
        draw_glyphs(
            &mut img,
            &run.mask,
            pad as i64 - run.left as i64,
            pad as i64 - run.top as i64,
            style.color,
        );
        img
    }

    /// Composites `src` onto `dest` with its top-left corner at `(x, y)`.
    pub fn composite(dest: &mut Canvas, src: &Canvas, x: i32, y: i32)
        ensures
            final(dest).spec_width() == old(dest).spec_width(),
            final(dest).spec_height() == old(dest).spec_height(),
            forall|i: int, j: int|
                final(dest).contains(i, j) ==> #[trigger] final(dest).at(i, j) == (Overlay {
                    layer: src,
                    x,
                    y,
                    alpha: Fixed::one(),
                }).spec_shade(old(dest).at(i, j), i, j),
    {
        dest.composite(src, x, y);
    }

    /// The pixel `(px, py)` once the image of the text has been composited
    /// over `acc` with its top-left corner at `(x0, y0)`.
    pub open spec fn spec_text_over(
        run: &GlyphRun,
        style: &TextStyle,
        acc: Color,
        px: int,
        py: int,
        x0: int,
        y0: int,
    ) -> Color {
        if 0 <= px - x0 < style.spec_side(run.spec_text_width()) && 0 <= py - y0 < style.spec_side(
            run.spec_text_height(),
        ) {
            spec_paint_over(TextRenderer::spec_text_pixel(run, style, px - x0, py - y0), acc)
        } else {
            acc
        }
    }

    /// Renders the text and composites its image onto `dest` at `(x, y)`.
    /// Returns the extent of the image.
#[verifier::rlimit(50)]
    pub fn stamp(&self, dest: &mut Canvas, run: &GlyphRun, style: &TextStyle, x: i32, y: i32) -> (extent: (u32, u32))
        requires
            style.spec_side(run.spec_text_width()) <= u32::MAX,
            style.spec_side(run.spec_text_height()) <= u32::MAX,
            fits_memory(
                style.spec_side(run.spec_text_width()),
                style.spec_side(run.spec_text_height()),
            ),
        ensures
            extent.0 == style.spec_side(run.spec_text_width()),
            extent.1 == style.spec_side(run.spec_text_height()),
            final(dest).spec_width() == old(dest).spec_width(),
            final(dest).spec_height() == old(dest).spec_height(),
            forall|i: int, j: int|
                final(dest).contains(i, j) ==> #[trigger] final(dest).at(i, j)
                    == TextRenderer::spec_text_over(
                    run,
                    style,
                    old(dest).at(i, j),
                    i,
                    j,
                    x as int,
                    y as int,
                ),
    {
        let text_img = self.render(run, style);
        proof {
            lemma_whole_layers_paint_over();
        }
        dest.composite(&text_img, x, y);
        (text_img.width(), text_img.height())
    }

    /// The image of the text centred on a blank canvas of the given extent;
    /// a text larger than the canvas starts at its top-left corner.
#[verifier::rlimit(50)]
    pub fn render_centered(&self, run: &GlyphRun, style: &TextStyle, canvas_width: u32, canvas_height: u32) -> (canvas: Canvas)
        requires
            style.spec_side(run.spec_text_width()) <= u32::MAX,
            style.spec_side(run.spec_text_height()) <= u32::MAX,
            fits_memory(
                style.spec_side(run.spec_text_width()),
                style.spec_side(run.spec_text_height()),
            ),
            fits_memory(canvas_width as int, canvas_height as int),
        ensures
            canvas.spec_width() == canvas_width,
            canvas.spec_height() == canvas_height,
            forall|x: int, y: int|
                canvas.contains(x, y) ==> #[trigger] canvas.at(x, y)
                    == TextRenderer::spec_text_over(
                    run,
                    style,
                    Color::transparent(),
                    x,
                    y,
                    spec_centre_start(
                        canvas_width,
                        style.spec_side(run.spec_text_width()) as u32,
                    ) as int,
                    spec_centre_start(
                        canvas_height,
                        style.spec_side(run.spec_text_height()) as u32,
                    ) as int,
                ),
    {
        let mut canvas = Canvas::new(canvas_width, canvas_height);
        let x: i32 = centre_start(canvas_width, style.side(run.text_width()));
        let y: i32 = centre_start(canvas_height, style.side(run.text_height()));
        self.stamp(&mut canvas, run, style, x, y);
        canvas
    }
}

/// A layer that keeps all of its alpha is composited by plain source-over,
/// whatever its pixels and whatever lies below.
pub proof fn lemma_whole_layers_paint_over()
    ensures
        forall|src: Color, dest: Color| #[trigger]
            spec_blend_faded(src, dest, Fixed::one()) == spec_paint_over(src, dest),
{
    assert forall|src: Color, dest: Color| #[trigger]
        spec_blend_faded(src, dest, Fixed::one()) == spec_paint_over(src, dest) by {
        lemma_blend_faded_whole(src, dest);
    }
}

/// Where an element of the extent `inner` starts when it is centred in
/// `outer`, never before the start.
pub open spec fn spec_centre_start(outer: u32, inner: u32) -> i32 {
    if inner >= outer {
        0
    } else {
        ((outer - inner) / 2) as i32
    }
}

#[verifier::when_used_as_spec(spec_centre_start)]
pub fn centre_start(outer: u32, inner: u32) -> (r: i32)
    ensures
        r == spec_centre_start(outer, inner),
{
    if inner >= outer {
        0
    } else {
        ((outer - inner) / 2) as i32
    }
}

impl Default for TextRenderer {
    fn default() -> (r: TextRenderer) {
        TextRenderer::new()
    }
}

/// Motion of text.
pub struct AnimatedText;

/// Number of characters of a text of `count` characters that a typewriter
/// has put down at `progress`: the fraction of them, rounded up.
pub open spec fn spec_visible_chars(count: usize, progress: Fixed) -> usize {
    let shown = spec_count_fixed(count).times(progress.unit()).ceiling();
    if shown < 0 {
        0
    } else if shown > count {
        count
    } else {
        shown as usize
    }
}

/// `count` as a fixed-point number, saturated.
pub open spec fn spec_count_fixed(count: usize) -> Fixed {
    Fixed::from_int(if count as int > i64::MAX as int {
        i64::MAX
    } else {
        count as i64
    })
}

#[verifier::when_used_as_spec(spec_count_fixed)]
pub fn count_fixed(count: usize) -> (r: Fixed)
    ensures
        r == spec_count_fixed(count),
{
    Fixed::from_int(if count as u64 > i64::MAX as u64 {
        i64::MAX
    } else {
        count as i64
    })
}

#[verifier::when_used_as_spec(spec_visible_chars)]
pub fn visible_chars(count: usize, progress: Fixed) -> (n: usize)
    ensures
        n == spec_visible_chars(count, progress),
        n <= count,
{
    let shown: i64 = count_fixed(count).times(progress.unit()).ceiling();
    if shown < 0 {
        0
    } else if shown as u64 > count as u64 {
        count
    } else {
        shown as usize
    }
}

impl AnimatedText {
    /// The offset in pixels of shaking text at `time`: a sine at 50 radians a
    /// second across and a cosine at 47 down, scaled by the intensity and rounded
    /// toward zero.
    pub open spec fn spec_shake_offset(time: Fixed, intensity: Fixed) -> (i32, i32) {
        (
            time.times(Fixed::from_int(50)).sine().times(intensity).pixels(),
            time.times(Fixed::from_int(47)).cosine().times(intensity).pixels(),
        )
    }

    #[verifier::when_used_as_spec(spec_shake_offset)]
    pub fn shake_offset(time: Fixed, intensity: Fixed) -> (r: (i32, i32))
        ensures
            r == AnimatedText::spec_shake_offset(time, intensity),
    {
        (
            time.times(Fixed::from_int(50)).sine().times(intensity).pixels(),
            time.times(Fixed::from_int(47)).cosine().times(intensity).pixels(),
        )
    }

    /// The part of `text` that a typewriter has put down at `progress`,
    /// clamped into `0 ..= 1`.
    pub fn typewriter_progress(text: &str, progress: Fixed) -> (shown: &str)
        ensures
            shown@ == text@.subrange(
                0,
                spec_visible_chars(text@.len() as usize, progress) as int,
            ),
    {
        let count: usize = text.unicode_len();
        let n: usize = visible_chars(count, progress);
        text.substring_char(0, n)
    }

    /// The vertical offset in pixels of the character of index `char_index` in
    /// waving text: a sine whose phase advances by half a radian a character.
    pub open spec fn spec_wave_offset(char_index: usize, time: Fixed, amplitude: Fixed, frequency: Fixed) -> i32 {
        time.times(frequency).plus(count_fixed(char_index).times(Fixed::millionths(500_000))).sine().times(
            amplitude,
        ).pixels()
    }

    #[verifier::when_used_as_spec(spec_wave_offset)]
    pub fn wave_offset(char_index: usize, time: Fixed, amplitude: Fixed, frequency: Fixed) -> (r: i32)
        ensures
            r == AnimatedText::spec_wave_offset(char_index, time, amplitude, frequency),
    {
        time.times(frequency).plus(count_fixed(char_index).times(Fixed::millionths(500_000))).sine().times(
            amplitude,
        ).pixels()
    }
}

/// The backdrop of a title card: a dark gradient that lightens downward.
pub struct TitleBackdrop {
    pub height: u32,
}

impl TitleBackdrop {
    /// Row `py` is a dark red-grey whose level rises from 20 at the top to 50 at
    /// the bottom.
    pub open spec fn spec_tint(&self, old: Color, px: u32, py: u32) -> Color {
        let gray = Fixed::from_int(20).plus(
            Fixed::from_int(30).times(Fixed::ratio(py as i64, self.height as i64)),
        ).channel();
        Color::rgba(gray, gray / 2, gray / 2, 255)
    }

    #[verifier::when_used_as_spec(spec_tint)]
    pub fn tint(&self, old: Color, px: u32, py: u32) -> (r: Color)
        ensures
            r == self.spec_tint(old, px, py),
    {
        let gray = Fixed::from_int(20).plus(
            Fixed::from_int(30).times(Fixed::ratio(py as i64, self.height as i64)),
        ).channel();
        Color::rgba(gray, gray / 2, gray / 2, 255)
    }
}

impl PixelRule for TitleBackdrop {
    open spec fn spec_shade(&self, old: Color, x: int, y: int) -> Color {
        self.spec_tint(old, x as u32, y as u32)
    }

    fn shade(&self, old: Color, x: u32, y: u32) -> (c: Color) {
        self.tint(old, x, y)
    }
}

/// Title card renderer.
pub struct TitleCard;

impl TitleCard {
    /// Size of the title in pixels: 12% of the width, at most 8% of the height.
    pub open spec fn spec_title_size(width: u32, height: u32) -> Fixed {
        Fixed::from_int(width as i64).times(Fixed::millionths(120_000)).lower(
            Fixed::from_int(height as i64).times(Fixed::millionths(80_000)),
        )
    }

    #[verifier::when_used_as_spec(spec_title_size)]
    pub fn title_size(width: u32, height: u32) -> (r: Fixed)
        ensures
            r == TitleCard::spec_title_size(width, height),
    {
        Fixed::from_int(width as i64).times(Fixed::millionths(120_000)).lower(
            Fixed::from_int(height as i64).times(Fixed::millionths(80_000)),
        )
    }
    /// Size of the subtitle in pixels: half the size of the title.
    pub open spec fn spec_subtitle_size(width: u32, height: u32) -> Fixed {
        TitleCard::title_size(width, height).times(Fixed::millionths(500_000))
    }

    #[verifier::when_used_as_spec(spec_subtitle_size)]
    pub fn subtitle_size(width: u32, height: u32) -> (r: Fixed)
        ensures
            r == TitleCard::spec_subtitle_size(width, height),
    {
        TitleCard::title_size(width, height).times(Fixed::millionths(500_000))
    }
    /// Row of the top of the title image: at 35% of the height where a subtitle
    /// follows, at 45% where none does.
    pub open spec fn spec_title_row(height: u32, with_subtitle: bool) -> i32 {
        if with_subtitle {
            Fixed::from_int(height as i64).times(Fixed::millionths(350_000)).pixels()
        } else {
            Fixed::from_int(height as i64).times(Fixed::millionths(450_000)).pixels()
        }
    }

    #[verifier::when_used_as_spec(spec_title_row)]
    pub fn title_row(height: u32, with_subtitle: bool) -> (r: i32)
        ensures
            r == TitleCard::spec_title_row(height, with_subtitle),
    {
        if with_subtitle {
            Fixed::from_int(height as i64).times(Fixed::millionths(350_000)).pixels()
        } else {
            Fixed::from_int(height as i64).times(Fixed::millionths(450_000)).pixels()
        }
    }

    /// The pixel `(px, py)` of a title card.
    pub open spec fn spec_pixel(
        title: &GlyphRun,
        subtitle: Option<&GlyphRun>,
        width: u32,
        height: u32,
        px: int,
        py: int,
    ) -> Color {
        let title_style = TextStyle::red_bold();
        let sub_style = TextStyle::white_with_black_outline();
        let title_x = spec_centre_start(
            width,
            title_style.spec_side(title.spec_text_width()) as u32,
        );
        let title_y = TitleCard::spec_title_row(height, subtitle.is_some());
        let titled = TextRenderer::spec_text_over(
            title,
            &title_style,
            (TitleBackdrop { height }).spec_shade(Color::transparent(), px, py),
            px,
            py,
            title_x as int,
            title_y as int,
        );
        match subtitle {
            Some(sub) => TextRenderer::spec_text_over(
                sub,
                &sub_style,
                titled,
                px,
                py,
                spec_centre_start(width, sub_style.spec_side(sub.spec_text_width()) as u32) as int,
                spec_clip_i32(title_y + title_style.spec_side(title.spec_text_height()) + 20) as int,
            ),
            None => titled,
        }
    }

    /// A title card: the title in bold red, centred, over a dark gradient,
    /// and the subtitle, where there is one, twenty pixels below it.
#[verifier::rlimit(50)]
    pub fn render(title: &GlyphRun, subtitle: Option<&GlyphRun>, width: u32, height: u32) -> (img: Canvas)
        requires
            fits_memory(width as int, height as int),
            text_image_fits(title, &TextStyle::red_bold()),
            subtitle.is_some() ==> text_image_fits(
                subtitle.unwrap(),
                &TextStyle::white_with_black_outline(),
            ),
        ensures
            img.spec_width() == width,
            img.spec_height() == height,
            forall|x: int, y: int|
                img.contains(x, y) ==> #[trigger] img.at(x, y) == TitleCard::spec_pixel(
                    title,
                    subtitle,
                    width,
                    height,
                    x,
                    y,
                ),
    {
        let mut img = Canvas::new(width, height);
        let backdrop = TitleBackdrop { height };
        img.paint(&backdrop);
        let renderer = TextRenderer::new();
        let title_style = TextStyle::red_bold();
        let title_x: i32 = centre_start(width, title_style.side(title.text_width()));
        let title_y: i32 = TitleCard::title_row(height, subtitle.is_some());
        let extent = renderer.stamp(&mut img, title, &title_style, title_x, title_y);
        match subtitle {
            Some(sub) => {
                let sub_style = TextStyle::white_with_black_outline();
                let sub_x: i32 = centre_start(width, sub_style.side(sub.text_width()));
                let sub_y: i32 = clip_i32(title_y as i64 + extent.1 as i64 + 20);
                renderer.stamp(&mut img, sub, &sub_style, sub_x, sub_y);
            },
            None => {},
        }
        img
    }
}

/// Whether the image of a text in a style can be allocated.
pub open spec fn text_image_fits(run: &GlyphRun, style: &TextStyle) -> bool {
    &&& style.spec_side(run.spec_text_width()) <= u32::MAX
    &&& style.spec_side(run.spec_text_height()) <= u32::MAX
    &&& fits_memory(
        style.spec_side(run.spec_text_width()),
        style.spec_side(run.spec_text_height()),
    )
}

/// `v` clamped into the range of a signed pixel coordinate.
pub open spec fn spec_clip_i32(v: int) -> i32 {
    if v < i32::MIN {
        i32::MIN
    } else if v > i32::MAX {
        i32::MAX
    } else {
        v as i32
    }
}

pub fn clip_i32(v: i64) -> (r: i32)
    ensures
        r == spec_clip_i32(v as int),
{
    if v < i32::MIN as i64 {
        i32::MIN
    } else if v > i32::MAX as i64 {
        i32::MAX
    } else {
        v as i32
    }
}

/// Lower third: a caption bar.
pub struct LowerThird;

impl LowerThird {
    /// Size of the caption in pixels: half the height of the bar, at most 4% of
    /// the width.
    pub open spec fn spec_text_size(width: u32, bar_height: u32) -> Fixed {
        Fixed::from_int(bar_height as i64).times(Fixed::millionths(500_000)).lower(
            Fixed::from_int(width as i64).times(Fixed::millionths(40_000)),
        )
    }

    #[verifier::when_used_as_spec(spec_text_size)]
    pub fn text_size(width: u32, bar_height: u32) -> (r: Fixed)
        ensures
            r == LowerThird::spec_text_size(width, bar_height),
    {
        Fixed::from_int(bar_height as i64).times(Fixed::millionths(500_000)).lower(
            Fixed::from_int(width as i64).times(Fixed::millionths(40_000)),
        )
    }

    /// The pixel `(px, py)` of a caption bar.
    pub open spec fn spec_pixel(run: &GlyphRun, width: u32, bar_height: u32, px: int, py: int) -> Color {
        let style = TextStyle::plain(Color::rgba(255, 255, 255, 255));
        TextRenderer::spec_text_over(
            run,
            &style,
            if py < 4 {
                Color::rgba(220, 50, 50, 255)
            } else {
                Color::rgba(20, 20, 20, 200)
            },
            px,
            py,
            spec_centre_start(width, style.spec_side(run.spec_text_width()) as u32) as int,
            spec_centre_start(bar_height, style.spec_side(run.spec_text_height()) as u32) as int,
        )
    }

    /// A caption bar: a translucent dark bar with a red accent of four rows
    /// along its top and the caption in white, centred.
#[verifier::rlimit(50)]
    pub fn render(run: &GlyphRun, width: u32, bar_height: u32) -> (img: Canvas)
        requires
            fits_memory(width as int, bar_height as int),
            text_image_fits(run, &TextStyle::plain(Color::rgba(255, 255, 255, 255))),
        ensures
            img.spec_width() == width,
            img.spec_height() == bar_height,
            forall|x: int, y: int|
                img.contains(x, y) ==> #[trigger] img.at(x, y) == LowerThird::spec_pixel(
                    run,
                    width,
                    bar_height,
                    x,
                    y,
                ),
    {
        let mut img = Canvas::filled(width, bar_height, Color::rgba(20, 20, 20, 200));
        img.fill_rect(0, 0, width, 4, Color::rgba(220, 50, 50, 255));
        let renderer = TextRenderer::new();
        let style = TextStyle::plain(Color::rgba(255, 255, 255, 255));
        let x: i32 = centre_start(width, style.side(run.text_width()));
        let y: i32 = centre_start(bar_height, style.side(run.text_height()));
        renderer.stamp(&mut img, run, &style, x, y);
        img
    }
}

} // verus!
