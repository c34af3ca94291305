//! The raster image that everything is drawn into, kept in an
//! `image::RgbaImage`, and the one loop that rewrites its pixels.

use vstd::prelude::*;
use crate::color::{lemma_blend_faded_transparent, spec_blend_faded, Color};
use crate::fixed::Fixed;

verus! {

/// A width × height grid of RGBA pixels, kept in an `image::RgbaImage`.
/// The verifier takes the grid as opaque: what it holds is spoken of through
/// `canvas_pixels` and `canvas_extent`, and only the functions below that
/// call into `image` and `imageproc` say what becomes of it.
#[verifier::external_body]
pub struct Canvas {
    inner: image::RgbaImage,
}

/// The pixels of a canvas by column and row; only the keys inside its extent
/// mean anything.
pub uninterp spec fn canvas_pixels(c: Canvas) -> Map<(int, int), Color>;

/// Width and height of a canvas.
pub uninterp spec fn canvas_extent(c: Canvas) -> (u32, u32);

/// The pixels that `image::imageops::resize` with the triangle filter makes
/// of a grid of the extent `from`, given by its pixels on exactly the places
/// of the grid, when asked for the extent `to`.
pub uninterp spec fn resampled_pixels(
    pixels: Map<(int, int), Color>,
    from: (u32, u32),
    to: (u32, u32),
) -> Map<(int, int), Color>;

/// The places of a grid of `width` × `height` pixels.
pub open spec fn grid(width: u32, height: u32) -> Set<(int, int)> {
    Set::new(|p: (int, int)| 0 <= p.0 < width && 0 <= p.1 < height)
}

/// What compositing a layer of `width` × `height` pixels, given by its
/// pixels, with its top-left corner at `(x, y)` and its alpha scaled by
/// `alpha` makes of the pixel `(px, py)` that holds `acc`: where the layer
/// has a pixel over it whose effective alpha is not zero, that pixel is
/// blended over it.
pub open spec fn spec_laid_over(
    pixels: Map<(int, int), Color>,
    width: u32,
    height: u32,
    x: int,
    y: int,
    alpha: Fixed,
    acc: Color,
    px: int,
    py: int,
) -> Color {
    if 0 <= px - x < width && 0 <= py - y < height {
        spec_blend_faded(pixels[(px - x, py - y)], acc, alpha)
    } else {
        acc
    }
}

/// Whether a grid of `width` × `height` RGBA pixels can be allocated: the
/// byte length of one row and that of the whole grid fit the address space,
/// with room for the wider buffers that resampling goes through. The row
/// counts by itself, since the length of a grid is worked out row first and
/// a row that does not fit fails even where there are no rows.
pub open spec fn fits_memory(width: int, height: int) -> bool {
    &&& 32 * width <= usize::MAX
    &&& 32 * width * height <= usize::MAX
}

/// Whether a grid of the extent given can be allocated.
pub fn can_allocate(width: u32, height: u32) -> (r: bool)
    ensures
        r == fits_memory(width as int, height as int),
{
    assert(0 <= 32 * (width as int) <= 32 * 0xffff_ffff);
    assert(0 <= 32 * (width as int) * (height as int) <= 32 * 0xffff_ffff * 0xffff_ffff)
        by (nonlinear_arith)
        requires
            0 <= 32 * (width as int) <= 32 * 0xffff_ffff,
            0 <= height <= 0xffff_ffff,
    ;
    let row: u128 = 32 * (width as u128);
    let cells: u128 = 32 * (width as u128) * (height as u128);
    row <= usize::MAX as u128 && cells <= usize::MAX as u128
}

/// `image::ImageBuffer::new`: a grid of the extent asked for with every
/// channel of every pixel zero. It panics where the byte length of a row or
/// of the grid overflows, which `requires` rules out.
#[verifier::external_body]
fn image_new(width: u32, height: u32) -> (c: Canvas)
    requires
        fits_memory(width as int, height as int),
    ensures
        canvas_extent(c) == (width, height),
        forall|x: int, y: int|
            0 <= x < width && 0 <= y < height ==> #[trigger] canvas_pixels(c)[(x, y)]
                == Color::transparent(),
{
    Canvas { inner: image::RgbaImage::new(width, height) }
}

/// `image::ImageBuffer::width`.
#[verifier::external_body]
fn image_width(c: &Canvas) -> (w: u32)
    ensures
        w == canvas_extent(*c).0,
{
    c.inner.width()
}

/// `image::ImageBuffer::height`.
#[verifier::external_body]
fn image_height(c: &Canvas) -> (h: u32)
    ensures
        h == canvas_extent(*c).1,
{
    c.inner.height()
}

/// `image::ImageBuffer::get_pixel`: the four channels stored at a place
/// inside the extent. Outside it the call panics, which `requires` rules out.
#[verifier::external_body]
fn image_get_pixel(c: &Canvas, x: u32, y: u32) -> (p: Color)
    requires
        x < canvas_extent(*c).0,
        y < canvas_extent(*c).1,
    ensures
        p == canvas_pixels(*c)[(x as int, y as int)],
{
    let p = c.inner.get_pixel(x, y);
    Color { r: p.0[0], g: p.0[1], b: p.0[2], a: p.0[3] }
}

/// `image::ImageBuffer::put_pixel`: stores the four channels at a place
/// inside the extent and touches nothing else. Outside the extent the call
/// panics, which `requires` rules out.
#[verifier::external_body]
fn image_put_pixel(c: &mut Canvas, x: u32, y: u32, p: Color)
    requires
        x < canvas_extent(*old(c)).0,
        y < canvas_extent(*old(c)).1,
    ensures
        canvas_extent(*final(c)) == canvas_extent(*old(c)),
        canvas_pixels(*final(c)) == canvas_pixels(*old(c)).insert((x as int, y as int), p),
{
    c.inner.put_pixel(x, y, image::Rgba([p.r, p.g, p.b, p.a]));
}

/// `Clone::clone` of `image::ImageBuffer`: same extent, same pixels.
#[verifier::external_body]
fn image_clone(c: &Canvas) -> (d: Canvas)
    ensures
        canvas_extent(d) == canvas_extent(*c),
        canvas_pixels(d) == canvas_pixels(*c),
{
    Canvas { inner: c.inner.clone() }
}

/// `image::imageops::resize` with `FilterType::Triangle`: a grid of the
/// extent asked for whose pixels depend on the source grid and the two
/// extents alone.
#[verifier::external_body]
fn image_resize(c: &Canvas, width: u32, height: u32) -> (d: Canvas)
    requires
        fits_memory(width as int, height as int),
        fits_memory(canvas_extent(*c).0 as int, height as int),
    ensures
        canvas_extent(d) == (width, height),
        forall|x: int, y: int|
            0 <= x < width && 0 <= y < height ==> #[trigger] canvas_pixels(d)[(x, y)]
                == resampled_pixels(
                Map::new(
                    |p: (int, int)| grid(canvas_extent(*c).0, canvas_extent(*c).1).contains(p),
                    |p: (int, int)| canvas_pixels(*c)[p],
                ),
                canvas_extent(*c),
                (width, height),
            )[(x, y)],
{
    Canvas {
        inner: image::imageops::resize(
            &c.inner,
            width,
            height,
            image::imageops::FilterType::Triangle,
        ),
    }
}

/// `imageproc::drawing::draw_filled_rect_mut` on the rectangle of `w` × `h`
/// at `(x, y)`: every pixel of the canvas inside the rectangle is set to
/// `p`, without blending, and the others keep their value. The call panics
/// on an empty rectangle or canvas and overflows where an extent or a right
/// or bottom edge passes `i32::MAX`; `requires` rules both out.
#[verifier::external_body]
fn image_fill_rect(c: &mut Canvas, x: i32, y: i32, w: u32, h: u32, p: Color)
    requires
        0 < w <= i32::MAX,
        0 < h <= i32::MAX,
        x + w <= i32::MAX,
        y + h <= i32::MAX,
        0 < canvas_extent(*old(c)).0 <= i32::MAX,
        0 < canvas_extent(*old(c)).1 <= i32::MAX,
    ensures
        canvas_extent(*final(c)) == canvas_extent(*old(c)),
        forall|i: int, j: int|
            0 <= i < canvas_extent(*old(c)).0 && 0 <= j < canvas_extent(*old(c)).1
                ==> #[trigger] canvas_pixels(*final(c))[(i, j)] == if x <= i < x + w && y <= j < y
                + h {
                p
            } else {
                canvas_pixels(*old(c))[(i, j)]
            },
{
    imageproc::drawing::draw_filled_rect_mut(
        &mut c.inner,
        imageproc::rect::Rect::at(x, y).of_size(w, h),
        image::Rgba([p.r, p.g, p.b, p.a]),
    );
}

/// `image::ImageBuffer::from_raw`: a grid over the bytes given, row by row
/// and four bytes a pixel, or nothing where the bytes are too few or the
/// byte length of a row or of the grid overflows.
#[verifier::external_body]
fn image_from_raw(width: u32, height: u32, bytes: Vec<u8>) -> (c: Option<Canvas>)
    ensures
        c.is_some() == (4 * width <= usize::MAX && 4 * width * height <= usize::MAX && 4 * width
            * height <= bytes@.len()),
        c.is_some() ==> canvas_extent(c.unwrap()) == (width, height),
        c.is_some() ==> forall|x: int, y: int|
            0 <= x < width && 0 <= y < height ==> #[trigger] canvas_pixels(c.unwrap())[(x, y)]
                == (Color {
                r: bytes@[4 * (y * width + x)],
                g: bytes@[4 * (y * width + x) + 1],
                b: bytes@[4 * (y * width + x) + 2],
                a: bytes@[4 * (y * width + x) + 3],
            }),
{
    match image::RgbaImage::from_raw(width, height, bytes) {
        Some(inner) => Some(Canvas { inner }),
        None => None,
    }
}

/// `image::ImageBuffer::into_raw`: the bytes under the grid, row by row and
/// four bytes a pixel.
#[verifier::external_body]
fn image_into_raw(c: Canvas) -> (bytes: Vec<u8>)
    ensures
        bytes@.len() >= 4 * canvas_extent(c).0 * canvas_extent(c).1,
        forall|x: int, y: int|
            0 <= x < canvas_extent(c).0 && 0 <= y < canvas_extent(c).1 ==> #[trigger] canvas_pixels(
                c,
            )[(x, y)] == (Color {
                r: bytes@[4 * (y * canvas_extent(c).0 + x)],
                g: bytes@[4 * (y * canvas_extent(c).0 + x) + 1],
                b: bytes@[4 * (y * canvas_extent(c).0 + x) + 2],
                a: bytes@[4 * (y * canvas_extent(c).0 + x) + 3],
            }),
{
    c.inner.into_raw()
}

/// `v` clamped into the range of an image coordinate.
pub open spec fn spec_clip_coord(v: int) -> u32 {
    if v < 0 {
        0
    } else if v > u32::MAX {
        u32::MAX
    } else {
        v as u32
    }
}

pub fn clip_coord(v: i64) -> (r: u32)
    ensures
        r == spec_clip_coord(v as int),
{
    if v < 0 {
        0
    } else if v > u32::MAX as i64 {
        u32::MAX
    } else {
        v as u32
    }
}

/// The rule that sets a pixel to one colour, whatever it held.
pub struct Solid {
    pub color: Color,
}

impl PixelRule for Solid {
    open spec fn spec_shade(&self, old: Color, x: int, y: int) -> Color {
        self.color
    }

    fn shade(&self, old: Color, x: u32, y: u32) -> (c: Color) {
        self.color
    }
}

/// A layer laid over a canvas with its top-left corner at `(x, y)` and its
/// alpha scaled by `alpha`.
pub struct Overlay<'a> {
    pub layer: &'a Canvas,
    pub x: i32,
    pub y: i32,
    pub alpha: Fixed,
}

impl<'a> PixelRule for Overlay<'a> {
    /// Where the layer has a pixel over this one whose effective alpha is not
    /// zero, that pixel is blended over it; elsewhere nothing changes.
    open spec fn spec_shade(&self, old: Color, x: int, y: int) -> Color {
        spec_laid_over(
            self.layer.view(),
            self.layer.spec_width(),
            self.layer.spec_height(),
            self.x as int,
            self.y as int,
            self.alpha,
            old,
            x,
            y,
        )
    }

    fn shade(&self, old: Color, x: u32, y: u32) -> (c: Color) {
        let lx: i64 = x as i64 - self.x as i64;
        let ly: i64 = y as i64 - self.y as i64;
        if 0 <= lx && lx < self.layer.width() as i64 && 0 <= ly && ly < self.layer.height() as i64 {
            let s = self.layer.get_pixel(lx as u32, ly as u32);
            Color::blend_faded(s, old, self.alpha)
        } else {
            old
        }
    }
}

/// A layer that is fully transparent everywhere changes no pixel it is
/// composited onto, wherever it is placed and whatever its alpha multiplier.
pub proof fn lemma_transparent_layer_changes_nothing(
    layer: &Canvas,
    x: i32,
    y: i32,
    alpha: Fixed,
    old: Color,
    i: int,
    j: int,
)
    requires
        forall|u: int, v: int| layer.contains(u, v) ==> (#[trigger] layer.at(u, v)).a == 0,
    ensures
        (Overlay { layer, x, y, alpha }).spec_shade(old, i, j) == old,
{
    if layer.contains(i - x, j - y) {
        lemma_blend_faded_transparent(layer.at(i - x, j - y), old, alpha);
    }
}

/// A canvas whose pixels are given by `f` has the view that `f` gives on
/// its grid.
pub proof fn lemma_view_of(c: &Canvas, f: spec_fn(int, int) -> Color)
    requires
        forall|x: int, y: int| c.contains(x, y) ==> #[trigger] c.at(x, y) == f(x, y),
    ensures
        c.view() == Map::new(
            |p: (int, int)| grid(c.spec_width(), c.spec_height()).contains(p),
            |p: (int, int)| f(p.0, p.1),
        ),
{
    let m = Map::new(
        |p: (int, int)| grid(c.spec_width(), c.spec_height()).contains(p),
        |p: (int, int)| f(p.0, p.1),
    );
    assert forall|p: (int, int)| c.view().dom().contains(p) implies #[trigger] c.view()[p] == m[p] by {
        assert(c.contains(p.0, p.1));
        assert(c.at(p.0, p.1) == f(p.0, p.1));
    }
    assert(c.view() =~= m);
}

/// What becomes of one pixel, given what it held and where it lies.
pub trait PixelRule {
    /// The new value of the pixel at column `x`, row `y` that held `old`.
    spec fn spec_shade(&self, old: Color, x: int, y: int) -> Color;

    fn shade(&self, old: Color, x: u32, y: u32) -> (c: Color)
        ensures
            c == self.spec_shade(old, x as int, y as int),
    ;
}

impl Canvas {
    pub open spec fn spec_width(&self) -> u32 {
        canvas_extent(*self).0
    }

    pub open spec fn spec_height(&self) -> u32 {
        canvas_extent(*self).1
    }

    /// Whether column `x`, row `y` lies inside the canvas.
    pub open spec fn contains(&self, x: int, y: int) -> bool {
        0 <= x < canvas_extent(*self).0 && 0 <= y < canvas_extent(*self).1
    }

    /// The pixel at column `x`, row `y`.
    #[verifier::inline]
    pub open spec fn at(&self, x: int, y: int) -> Color {
        canvas_pixels(*self)[(x, y)]
    }

    /// The pixels of the canvas by column and row, on exactly the places
    /// of its grid.
    pub open spec fn view(&self) -> Map<(int, int), Color> {
        Map::new(
            |p: (int, int)| grid(self.spec_width(), self.spec_height()).contains(p),
            |p: (int, int)| canvas_pixels(*self)[p],
        )
    }

    /// Same extent and, inside it, the same pixels.
    pub open spec fn same_as(&self, other: Canvas) -> bool {
        &&& canvas_extent(*self) == canvas_extent(other)
        &&& forall|x: int, y: int| self.contains(x, y) ==> #[trigger] self.at(x, y) == other.at(x, y)
    }

    /// Every pixel is transparent black.
    pub open spec fn is_blank(&self) -> bool {
        forall|x: int, y: int| self.contains(x, y) ==> #[trigger] self.at(x, y) == Color::transparent()
    }

    /// A blank canvas: every pixel transparent black.
    pub fn new(width: u32, height: u32) -> (c: Canvas)
        requires
            fits_memory(width as int, height as int),
        ensures
            c.spec_width() == width,
            c.spec_height() == height,
            c.is_blank(),
    {
        image_new(width, height)
    }

    #[verifier::when_used_as_spec(spec_width)]
    pub fn width(&self) -> (w: u32)
        ensures
            w == self.spec_width(),
    {
        image_width(self)
    }

    #[verifier::when_used_as_spec(spec_height)]
    pub fn height(&self) -> (h: u32)
        ensures
            h == self.spec_height(),
    {
        image_height(self)
    }

    /// The pixel at column `x`, row `y`.
    pub fn get_pixel(&self, x: u32, y: u32) -> (p: Color)
        requires
            self.contains(x as int, y as int),
        ensures
            p == self.at(x as int, y as int),
    {
        image_get_pixel(self, x, y)
    }

    pub open spec fn spec_pixel(&self, x: u32, y: u32) -> Option<Color> {
        if self.contains(x as int, y as int) {
            Some(self.at(x as int, y as int))
        } else {
            None
        }
    }

    /// The pixel at column `x`, row `y`, or nothing outside the canvas.
    #[verifier::when_used_as_spec(spec_pixel)]
    pub fn pixel(&self, x: u32, y: u32) -> (p: Option<Color>)
        ensures
            p == self.spec_pixel(x, y),
    {
        if x < self.width() && y < self.height() {
            Some(image_get_pixel(self, x, y))
        } else {
            None
        }
    }

    /// Stores `p` at column `x`, row `y`.
    pub fn put_pixel(&mut self, x: u32, y: u32, p: Color)
        requires
            old(self).contains(x as int, y as int),
        ensures
            final(self).spec_width() == old(self).spec_width(),
            final(self).spec_height() == old(self).spec_height(),
            forall|i: int, j: int|
                final(self).contains(i, j) ==> #[trigger] final(self).at(i, j) == if i == x && j == y {
                    p
                } else {
                    old(self).at(i, j)
                },
    {
        image_put_pixel(self, x, y, p);
    }

    /// The canvas resampled to `width` × `height` with a triangle filter.
    pub fn resized(&self, width: u32, height: u32) -> (d: Canvas)
        requires
            fits_memory(width as int, height as int),
            fits_memory(self.spec_width() as int, height as int),
        ensures
            d.spec_width() == width,
            d.spec_height() == height,
            forall|x: int, y: int|
                d.contains(x, y) ==> #[trigger] d.at(x, y) == resampled_pixels(
                    self.view(),
                    (self.spec_width(), self.spec_height()),
                    (width, height),
                )[(x, y)],
    {
        image_resize(self, width, height)
    }

    /// A copy with the same extent and pixels.
    pub fn duplicate(&self) -> (d: Canvas)
        ensures
            d.same_as(*self),
    {
        image_clone(self)
    }

    /// A canvas over `bytes`, four a pixel and row by row, or nothing where
    /// they are fewer than the extent needs.
    pub fn from_bytes(width: u32, height: u32, bytes: Vec<u8>) -> (c: Option<Canvas>)
        ensures
            c.is_some() == (4 * width <= usize::MAX && 4 * width * height <= usize::MAX && 4
                * width * height <= bytes@.len()),
            c.is_some() ==> c.unwrap().spec_width() == width && c.unwrap().spec_height()
                == height,
            c.is_some() ==> forall|x: int, y: int|
                0 <= x < width && 0 <= y < height ==> #[trigger] c.unwrap().at(x, y) == (Color {
                    r: bytes@[4 * (y * width + x)],
                    g: bytes@[4 * (y * width + x) + 1],
                    b: bytes@[4 * (y * width + x) + 2],
                    a: bytes@[4 * (y * width + x) + 3],
                }),
    {
        image_from_raw(width, height, bytes)
    }

    /// The bytes of the canvas, four a pixel and row by row.
    pub fn into_bytes(self) -> (bytes: Vec<u8>)
        ensures
            bytes@.len() >= 4 * self.spec_width() * self.spec_height(),
            forall|x: int, y: int|
                self.contains(x, y) ==> #[trigger] self.at(x, y) == (Color {
                    r: bytes@[4 * (y * self.spec_width() + x)],
                    g: bytes@[4 * (y * self.spec_width() + x) + 1],
                    b: bytes@[4 * (y * self.spec_width() + x) + 2],
                    a: bytes@[4 * (y * self.spec_width() + x) + 3],
                }),
    {
        image_into_raw(self)
    }

    /// Rewrites by `rule` every pixel of the window of columns `x0 .. x1` and
    /// rows `y0 .. y1`, clipped to the canvas, and leaves the others alone.
    pub fn paint_region<R: PixelRule>(&mut self, rule: &R, x0: u32, y0: u32, x1: u32, y1: u32)
        ensures
            final(self).spec_width() == old(self).spec_width(),
            final(self).spec_height() == old(self).spec_height(),
            forall|x: int, y: int|
                final(self).contains(x, y) ==> #[trigger] final(self).at(x, y) == if x0 <= x < x1 && y0 <= y
                    < y1 {
                    rule.spec_shade(old(self).at(x, y), x, y)
                } else {
                    old(self).at(x, y)
                },
    {
        let w: u32 = self.width();
        let h: u32 = self.height();
        let xe: u32 = if x1 < w {
            x1
        } else {
            w
        };
        let ye: u32 = if y1 < h {
            y1
        } else {
            h
        };
        let mut y: u32 = y0;
        while y < ye
            invariant
                self.spec_width() == old(self).spec_width() == w,
                self.spec_height() == old(self).spec_height() == h,
                xe <= w,
                ye <= h,
                xe == if x1 < w { x1 } else { w },
                ye == if y1 < h { y1 } else { h },
                y0 <= y,
                y <= ye || y == y0,
                forall|i: int, j: int|
                    self.contains(i, j) ==> #[trigger] self.at(i, j) == if x0 <= i < x1 && y0 <= j < y {
                        rule.spec_shade(old(self).at(i, j), i, j)
                    } else {
                        old(self).at(i, j)
                    },
            decreases ye - y,
        {
            let mut x: u32 = x0;
            while x < xe
                invariant
                    self.spec_width() == old(self).spec_width() == w,
                    self.spec_height() == old(self).spec_height() == h,
                    xe <= w,
                    ye <= h,
                    xe == if x1 < w { x1 } else { w },
                    y0 <= y < ye,
                    x0 <= x,
                    x <= xe || x == x0,
                    forall|i: int, j: int|
                        self.contains(i, j) ==> #[trigger] self.at(i, j) == if x0 <= i < x1 && (y0 <= j < y
                            || (j == y && i < x)) {
                            rule.spec_shade(old(self).at(i, j), i, j)
                        } else {
                            old(self).at(i, j)
                        },
                decreases xe - x,
            {
                let before: Color = image_get_pixel(self, x, y);
                let after: Color = rule.shade(before, x, y);
                image_put_pixel(self, x, y, after);
                x = x + 1;
            }
            y = y + 1;
        }
    }

    /// Sets every pixel inside the rectangle of `w` × `h` at `(x, y)` to
    /// `color`, without blending.
#[verifier::rlimit(50)]
    pub fn fill_rect(&mut self, x: i32, y: i32, w: u32, h: u32, color: Color)
        ensures
            final(self).spec_width() == old(self).spec_width(),
            final(self).spec_height() == old(self).spec_height(),
            forall|i: int, j: int|
                final(self).contains(i, j) ==> #[trigger] final(self).at(i, j) == if x <= i < x
                    + w && y <= j < y + h {
                    color
                } else {
                    old(self).at(i, j)
                },
    {
        let cw: u32 = self.width();
        let ch: u32 = self.height();
        let right: i64 = x as i64 + w as i64;
        let bottom: i64 = y as i64 + h as i64;
        if w > 0 && h > 0 && w <= i32::MAX as u32 && h <= i32::MAX as u32 && right <= i32::MAX as i64
            && bottom <= i32::MAX as i64 && cw > 0 && ch > 0 && cw <= i32::MAX as u32 && ch
            <= i32::MAX as u32 {
            image_fill_rect(self, x, y, w, h, color);
        } else {
            let rule = Solid { color };
            let x0: u32 = if x < 0 {
                0
            } else {
                x as u32
            };
            let y0: u32 = if y < 0 {
                0
            } else {
                y as u32
            };
            let x1: u32 = if right < 0 {
                0
            } else if right > u32::MAX as i64 {
                u32::MAX
            } else {
                right as u32
            };
            let y1: u32 = if bottom < 0 {
                0
            } else if bottom > u32::MAX as i64 {
                u32::MAX
            } else {
                bottom as u32
            };
            self.paint_region(&rule, x0, y0, x1, y1);
        }
    }

    /// A canvas of the extent given with every pixel set to `color`.
    pub fn filled(width: u32, height: u32, color: Color) -> (c: Canvas)
        requires
            fits_memory(width as int, height as int),
        ensures
            c.spec_width() == width,
            c.spec_height() == height,
            forall|x: int, y: int| c.contains(x, y) ==> #[trigger] c.at(x, y) == color,
    {
        let mut c = Canvas::new(width, height);
        c.fill_rect(0, 0, width, height, color);
        c
    }

    /// Composites `layer` onto the canvas with its top-left corner at
    /// `(x, y)` and its alpha scaled by `alpha`: every layer pixel that lands
    /// inside the canvas and whose effective alpha is not zero is blended over
    /// the pixel below it.
    pub fn composite_with_alpha(&mut self, layer: &Canvas, x: i32, y: i32, alpha: Fixed)
        ensures
            final(self).spec_width() == old(self).spec_width(),
            final(self).spec_height() == old(self).spec_height(),
            forall|i: int, j: int|
                final(self).contains(i, j) ==> #[trigger] final(self).at(i, j) == (Overlay {
                    layer,
                    x,
                    y,
                    alpha,
                }).spec_shade(old(self).at(i, j), i, j),
    {
        let rule = Overlay { layer, x, y, alpha };
        let x0: u32 = clip_coord(x as i64);
        let y0: u32 = clip_coord(y as i64);
        let x1: u32 = clip_coord(x as i64 + layer.width() as i64);
        let y1: u32 = clip_coord(y as i64 + layer.height() as i64);
        self.paint_region(&rule, x0, y0, x1, y1);
    }

    /// Composites `layer` onto the canvas at `(x, y)` at its own alpha.
    pub fn composite(&mut self, layer: &Canvas, x: i32, y: i32)
        ensures
            final(self).spec_width() == old(self).spec_width(),
            final(self).spec_height() == old(self).spec_height(),
            forall|i: int, j: int|
                final(self).contains(i, j) ==> #[trigger] final(self).at(i, j) == (Overlay {
                    layer,
                    x,
                    y,
                    alpha: Fixed::one(),
                }).spec_shade(old(self).at(i, j), i, j),
    {
        self.composite_with_alpha(layer, x, y, Fixed::one());
    }

    /// Rewrites every pixel of the canvas by `rule`.
    pub fn paint<R: PixelRule>(&mut self, rule: &R)
        ensures
            final(self).spec_width() == old(self).spec_width(),
            final(self).spec_height() == old(self).spec_height(),
            forall|x: int, y: int|
                final(self).contains(x, y) ==> #[trigger] final(self).at(x, y) == rule.spec_shade(
                    old(self).at(x, y),
                    x,
                    y,
                ),
    {
        let w: u32 = self.width();
        let h: u32 = self.height();
        self.paint_region(rule, 0, 0, w, h);
    }
}

} // verus!
