//! Raster images of RGBA8 pixels, their mathematical model, and pixel access.

use crate::ops::{blend, composite, storable};
use crate::types::{Point, Size};
use vstd::prelude::*;

verus! {

/// One pixel: red, green, blue and alpha, eight bits each.
#[derive(Clone, Copy, Debug, PartialEq, Eq, Structural)]
pub struct Rgba {
    pub r: u8,
    pub g: u8,
    pub b: u8,
    pub a: u8,
}

/// The mathematical model of a raster image: `height` rows of `width` pixels.
pub struct Bitmap {
    pub width: nat,
    pub height: nat,
    pub rows: Seq<Seq<Rgba>>,
}

impl Bitmap {
    /// Every row exists and has the full width.
    pub open spec fn wf(self) -> bool {
        &&& self.rows.len() == self.height
        &&& forall|y: int| 0 <= y < self.height ==> (#[trigger] self.rows[y]).len() == self.width
    }

    /// The size of the image.
    pub open spec fn size(self) -> Size {
        Size { width: self.width as u32, height: self.height as u32 }
    }

    /// Whether `(x, y)` names a pixel of the image.
    pub open spec fn contains(self, x: int, y: int) -> bool {
        0 <= x < self.width && 0 <= y < self.height
    }

    /// The pixel in column `x` of row `y`.
    pub open spec fn px(self, x: int, y: int) -> Rgba {
        self.rows[y][x]
    }

    /// The image of the given size whose pixel at `(x, y)` is `f(x, y)`.
    pub open spec fn from_fn(width: nat, height: nat, f: spec_fn(int, int) -> Rgba) -> Bitmap {
        Bitmap {
            width,
            height,
            rows: Seq::new(height, |y: int| Seq::new(width, |x: int| f(x, y))),
        }
    }

    /// The image of the given size with every pixel equal to `color`.
    pub open spec fn solid(width: nat, height: nat, color: Rgba) -> Bitmap {
        Bitmap::from_fn(width, height, |x: int, y: int| color)
    }

    /// The image with the pixel at `(x, y)` replaced by `p`.
    pub open spec fn with_px(self, x: int, y: int, p: Rgba) -> Bitmap {
        Bitmap { rows: self.rows.update(y, self.rows[y].update(x, p)), ..self }
    }

    /// The image stored row by row in `data`, four bytes to a pixel.
    pub open spec fn from_bytes(width: nat, height: nat, data: Seq<u8>) -> Bitmap {
        Bitmap::from_fn(width, height, |x: int, y: int| pixel_of(data, y * width + x))
    }

    /// Same size and the same pixel at every position.
    pub open spec fn same_as(self, other: Bitmap) -> bool {
        &&& self.width == other.width
        &&& self.height == other.height
        &&& forall|x: int, y: int| self.contains(x, y) ==> self.px(x, y) == other.px(x, y)
    }
}

/// What `from_fn` builds is well formed and has `f(x, y)` at `(x, y)`.
pub proof fn lemma_from_fn(width: nat, height: nat, f: spec_fn(int, int) -> Rgba)
    ensures
        Bitmap::from_fn(width, height, f).wf(),
        Bitmap::from_fn(width, height, f).width == width,
        Bitmap::from_fn(width, height, f).height == height,
        forall|x: int, y: int|
            0 <= x < width && 0 <= y < height ==> #[trigger] Bitmap::from_fn(width, height, f).px(
                x,
                y,
            ) == f(x, y),
{
}

/// Replacing one pixel changes that pixel and no other.
pub proof fn lemma_with_px(b: Bitmap, x: int, y: int, p: Rgba)
    requires
        b.wf(),
        b.contains(x, y),
    ensures
        b.with_px(x, y, p).wf(),
        b.with_px(x, y, p).width == b.width,
        b.with_px(x, y, p).height == b.height,
        forall|xx: int, yy: int|
            0 <= xx < b.width && 0 <= yy < b.height ==> #[trigger] b.with_px(x, y, p).px(xx, yy)
                == (if xx == x && yy == y {
                p
            } else {
                b.px(xx, yy)
            }),
{
}

/// The `i`-th pixel of a byte buffer that holds four bytes to a pixel.
pub open spec fn pixel_of(data: Seq<u8>, i: int) -> Rgba {
    Rgba { r: data[4 * i], g: data[4 * i + 1], b: data[4 * i + 2], a: data[4 * i + 3] }
}

/// Two well-formed images with the same size and pixels are equal.
pub proof fn lemma_bitmap_ext(a: Bitmap, b: Bitmap)
    requires
        a.wf(),
        b.wf(),
        a.same_as(b),
    ensures
        a == b,
{
    assert forall|y: int| 0 <= y < a.height implies a.rows[y] == b.rows[y] by {
        assert forall|x: int| 0 <= x < a.width implies a.rows[y][x] == b.rows[y][x] by {
            assert(a.contains(x, y));
            assert(a.px(x, y) == b.px(x, y));
        }
        assert(a.rows[y] =~= b.rows[y]);
    }
    assert(a.rows =~= b.rows);
}

/// Row-major positions are distinct for distinct pixels and stay below
/// `width * height`.
proof fn lemma_position(width: int, height: int, x: int, y: int)
    requires
        0 <= x < width,
        0 <= y < height,
    ensures
        0 <= y * width + x < width * height,
        (y * width + x) / width == y,
        (y * width + x) % width == x,
{
    vstd::arithmetic::div_mod::lemma_fundamental_div_mod_converse(y * width + x, width, y, x);
    assert(y * width + x < width * height) by (nonlinear_arith)
        requires
            0 <= x < width,
            0 <= y < height,
    ;
    assert(0 <= y * width) by (nonlinear_arith)
        requires
            0 <= y,
            0 < width,
    ;
}

/// The axis along which a fade runs.
#[derive(Clone, Copy, Debug, PartialEq, Eq, Structural)]
pub enum Direction {
    /// Along a row: the position is the column.
    Horizontal,
    /// Along a column: the position is the row.
    Vertical,
}

/// The position of pixel `(x, y)` along `direction`.
pub open spec fn position_along(direction: Direction, x: int, y: int) -> int {
    match direction {
        Direction::Horizontal => x,
        Direction::Vertical => y,
    }
}

/// The alpha of a pixel at position `pos` after a fade between `start` and
/// `end`. The factor rises linearly from 0 at the lower bound to 1 at the
/// upper one and is held outside. With `start < end` the alpha is multiplied
/// by one minus the factor, with `start > end` by the factor; products are
/// rounded down. With `start == end` there is no ramp and nothing changes.
pub open spec fn faded_alpha(alpha: u8, pos: int, start: int, end: int) -> u8 {
    if start < end {
        if pos <= start {
            alpha
        } else if pos >= end {
            0
        } else {
            (alpha * (end - pos) / (end - start)) as u8
        }
    } else if start > end {
        if pos <= end {
            0
        } else if pos >= start {
            alpha
        } else {
            (alpha * (pos - end) / (start - end)) as u8
        }
    } else {
        alpha
    }
}

/// The pixel with its alpha faded and its colour untouched.
pub open spec fn faded_px(p: Rgba, pos: int, start: int, end: int) -> Rgba {
    Rgba { a: faded_alpha(p.a, pos, start, end), ..p }
}

/// The image with every pixel faded by its position along `direction`.
pub open spec fn faded(b: Bitmap, start: int, end: int, direction: Direction) -> Bitmap {
    Bitmap::from_fn(
        b.width,
        b.height,
        |x: int, y: int| faded_px(b.px(x, y), position_along(direction, x, y), start, end),
    )
}

/// Whether `v` lies between `a` and `b`, whichever is smaller: from the
/// smaller one on, up to but not including the larger.
pub open spec fn in_span(v: int, a: int, b: int) -> bool {
    (a <= v < b) || (b <= v < a)
}

/// Whether `(x, y)` lies in the rectangle spanned by the two corners.
pub open spec fn in_rect(x: int, y: int, p: Point, q: Point) -> bool {
    in_span(x, p.x as int, q.x as int) && in_span(y, p.y as int, q.y as int)
}

/// The image with `color` composited onto every pixel in the rectangle
/// spanned by the two corners.
pub open spec fn filled(b: Bitmap, color: Rgba, p: Point, q: Point) -> Bitmap {
    Bitmap::from_fn(
        b.width,
        b.height,
        |x: int, y: int|
            if in_rect(x, y, p, q) {
                composite(b.px(x, y), color)
            } else {
                b.px(x, y)
            },
    )
}

/// The alpha of one pixel after a fade.
fn fade_alpha(alpha: u8, pos: u32, start: u32, end: u32) -> (out: u8)
    ensures
        out == faded_alpha(alpha, pos as int, start as int, end as int),
        out <= alpha,
{
    if start < end {
        if pos <= start {
            alpha
        } else if pos >= end {
            0
        } else {
            scale_alpha(alpha, end - pos, end - start)
        }
    } else if start > end {
        if pos <= end {
            0
        } else if pos >= start {
            alpha
        } else {
            scale_alpha(alpha, pos - end, start - end)
        }
    } else {
        alpha
    }
}

/// `alpha * part / whole`, rounded down.
fn scale_alpha(alpha: u8, part: u32, whole: u32) -> (out: u8)
    requires
        part <= whole,
        whole > 0,
    ensures
        out == alpha * part / (whole as int),
        out <= alpha,
{
    proof {
        assert(0 <= alpha * part <= alpha * whole && alpha * whole <= 255 * 0xffff_ffff)
            by (nonlinear_arith)
            requires
                0 <= alpha <= 255,
                0 <= part <= whole <= 0xffff_ffff,
        ;
        assert(0 <= (alpha * part) / (whole as int) <= alpha) by (nonlinear_arith)
            requires
                0 <= alpha * part <= alpha * whole,
                whole > 0,
        ;
    }
    let scaled: u64 = (alpha as u64) * (part as u64) / (whole as u64);
    scaled as u8
}

/// Fades the alpha of every pixel by its position along `direction`. From
/// `start` to a larger `end` the image goes from unchanged to transparent; from
/// `start` down to a smaller `end` it comes up from transparent to unchanged.
/// Colours are not touched.
pub fn fade_out(image: &mut RasterImage, start: u32, end: u32, direction: Direction)
    requires
        old(image).wf(),
    ensures
        final(image).wf(),
        final(image)@ == faded(old(image)@, start as int, end as int, direction),
{
    let width: u32 = image.width();
    let height: u32 = image.height();
    let ghost orig = image@;
    let ghost want = faded(orig, start as int, end as int, direction);
    proof {
        image.lemma_view_wf();
    }
    let mut y: u32 = 0;
    while y < height
        invariant
            y <= height,
            image.wf(),
            orig.wf(),
            orig.width == width,
            orig.height == height,
            image@.wf(),
            image@.width == width,
            image@.height == height,
            want == faded(orig, start as int, end as int, direction),
            forall|xx: int, yy: int|
                0 <= xx < width && 0 <= yy < height ==> image@.px(xx, yy) == (if yy < y {
                    want.px(xx, yy)
                } else {
                    orig.px(xx, yy)
                }),
        decreases height - y,
    {
        let mut x: u32 = 0;
        while x < width
            invariant
                x <= width,
                y < height,
                image.wf(),
                orig.wf(),
                orig.width == width,
                orig.height == height,
                image@.wf(),
                image@.width == width,
                image@.height == height,
                want == faded(orig, start as int, end as int, direction),
                forall|xx: int, yy: int|
                    0 <= xx < width && 0 <= yy < height ==> image@.px(xx, yy) == (if yy < y || (yy
                        == y && xx < x) {
                        want.px(xx, yy)
                    } else {
                        orig.px(xx, yy)
                    }),
            decreases width - x,
        {
            let p = image.get_pixel(x, y);
            let pos: u32 = match direction {
                Direction::Horizontal => x,
                Direction::Vertical => y,
            };
            let a = fade_alpha(p.a, pos, start, end);
            let ghost before = image@;
            image.put_pixel(x, y, Rgba { r: p.r, g: p.g, b: p.b, a });
            proof {
                lemma_with_px(before, x as int, y as int, Rgba { r: p.r, g: p.g, b: p.b, a });
                lemma_from_fn(
                    orig.width,
                    orig.height,
                    |x: int, y: int|
                        faded_px(
                            orig.px(x, y),
                            position_along(direction, x, y),
                            start as int,
                            end as int,
                        ),
                );
            }
            x += 1;
        }
        y += 1;
    }
    proof {
        lemma_from_fn(
            orig.width,
            orig.height,
            |x: int, y: int|
                faded_px(
                    orig.px(x, y),
                    position_along(direction, x, y),
                    start as int,
                    end as int,
                ),
        );
        lemma_bitmap_ext(image@, want);
    }
}

/// Composites `color` onto every pixel in the rectangle spanned by the two
/// corners, whichever way round they are given; the rest is left alone. With an
/// opaque `color` every pixel in the rectangle becomes `color`.
pub fn fill_rect(image: &mut RasterImage, color: &Rgba, top_left: Point, bottom_right: Point)
    requires
        old(image).wf(),
    ensures
        final(image).wf(),
        final(image)@ == filled(old(image)@, *color, top_left, bottom_right),
        final(image)@.width == old(image)@.width,
        final(image)@.height == old(image)@.height,
        forall|x: int, y: int|
            old(image)@.contains(x, y) && !in_rect(x, y, top_left, bottom_right)
                ==> final(image)@.px(x, y) == old(image)@.px(x, y),
        color.a == 255 ==> forall|x: int, y: int|
            old(image)@.contains(x, y) && in_rect(x, y, top_left, bottom_right)
                ==> final(image)@.px(x, y) == *color,
{
    let width: u32 = image.width();
    let height: u32 = image.height();
    let lo_x: u32 = if top_left.x <= bottom_right.x { top_left.x } else { bottom_right.x };
    let hi_x: u32 = if top_left.x <= bottom_right.x { bottom_right.x } else { top_left.x };
    let lo_y: u32 = if top_left.y <= bottom_right.y { top_left.y } else { bottom_right.y };
    let hi_y: u32 = if top_left.y <= bottom_right.y { bottom_right.y } else { top_left.y };
    let x0: u32 = if lo_x <= width { lo_x } else { width };
    let x1: u32 = if hi_x <= width { hi_x } else { width };
    let y0: u32 = if lo_y <= height { lo_y } else { height };
    let y1: u32 = if hi_y <= height { hi_y } else { height };
    let ghost orig = image@;
    let ghost want = filled(orig, *color, top_left, bottom_right);
    proof {
        image.lemma_view_wf();
    }
    let mut y: u32 = y0;
    while y < y1
        invariant
            y0 <= y1 <= height,
            x0 <= x1 <= width,
            y0 <= y <= y1,
            image.wf(),
            orig.wf(),
            orig.width == width,
            orig.height == height,
            image@.wf(),
            image@.width == width,
            image@.height == height,
            want == filled(orig, *color, top_left, bottom_right),
            forall|xx: int, yy: int|
                0 <= xx < width && 0 <= yy < height ==> image@.px(xx, yy) == (if y0 <= yy < y && x0
                    <= xx < x1 {
                    composite(orig.px(xx, yy), *color)
                } else {
                    orig.px(xx, yy)
                }),
        decreases y1 - y,
    {
        let mut x: u32 = x0;
        while x < x1
            invariant
                y0 <= y < y1 <= height,
                x0 <= x1 <= width,
                x0 <= x <= x1,
                image.wf(),
                orig.wf(),
                orig.width == width,
                orig.height == height,
                image@.wf(),
                image@.width == width,
                image@.height == height,
                forall|xx: int, yy: int|
                    0 <= xx < width && 0 <= yy < height ==> image@.px(xx, yy) == (if x0 <= xx < x1
                        && (y0 <= yy < y || (yy == y && xx < x)) {
                        composite(orig.px(xx, yy), *color)
                    } else {
                        orig.px(xx, yy)
                    }),
            decreases x1 - x,
        {
            let p = image.get_pixel(x, y);
            let q = blend(p, *color);
            let ghost before = image@;
            image.put_pixel(x, y, q);
            proof {
                lemma_with_px(before, x as int, y as int, q);
            }
            x += 1;
        }
        y += 1;
    }
    proof {
        lemma_from_fn(
            orig.width,
            orig.height,
            |x: int, y: int|
                if in_rect(x, y, top_left, bottom_right) {
                    composite(orig.px(x, y), *color)
                } else {
                    orig.px(x, y)
                },
        );
        assert forall|xx: int, yy: int| image@.contains(xx, yy) implies image@.px(xx, yy)
            == want.px(xx, yy) by {
            assert(in_rect(xx, yy, top_left, bottom_right) <==> (x0 <= xx < x1 && y0 <= yy < y1));
        }
        lemma_bitmap_ext(image@, want);
    }
}

/// An image of RGBA8 pixels, stored row by row, four bytes to a pixel.
pub struct RasterImage {
    pub(crate) width: u32,
    pub(crate) height: u32,
    pub(crate) data: Vec<u8>,
}

impl View for RasterImage {
    type V = Bitmap;

    closed spec fn view(&self) -> Bitmap {
        Bitmap::from_bytes(self.width as nat, self.height as nat, self.data@)
    }
}

impl RasterImage {
    /// The buffer holds exactly four bytes for each pixel.
    pub closed spec fn wf(&self) -> bool {
        self.data@.len() == 4 * (self.width * self.height)
    }

    /// The model of every image has full rows.
    pub proof fn lemma_view_wf(&self)
        ensures
            self@.wf(),
    {
    }

    /// The bytes behind the image, as `into_raw` hands them out.
    pub closed spec fn bytes(&self) -> Seq<u8> {
        self.data@
    }

    pub fn width(&self) -> (w: u32)
        ensures
            w == self@.width,
    {
        self.width
    }

    pub fn height(&self) -> (h: u32)
        ensures
            h == self@.height,
    {
        self.height
    }

    pub fn size(&self) -> (out: Size)
        ensures
            out == self@.size(),
            out.width == self@.width,
            out.height == self@.height,
    {
        Size { width: self.width, height: self.height }
    }

    /// An image of the given size with every pixel equal to `color`.
    pub fn new(width: u32, height: u32, color: Rgba) -> (out: RasterImage)
        requires
            storable(width as int, height as int),
        ensures
            out.wf(),
            out@ == Bitmap::solid(width as nat, height as nat, color),
    {
        assert(0 <= width * height) by (nonlinear_arith)
            requires
                0 <= width,
                0 <= height,
        ;
        let pixels: usize = (width as usize) * (height as usize);
        let mut data: Vec<u8> = Vec::with_capacity(4 * pixels);
        let mut i: usize = 0;
        while i < pixels
            invariant
                i <= pixels,
                4 * pixels <= usize::MAX,
                data@.len() == 4 * i,
                forall|k: int| 0 <= k < i ==> pixel_of(data@, k) == color,
            decreases pixels - i,
        {
            let ghost before = data@;
            data.push(color.r);
            data.push(color.g);
            data.push(color.b);
            data.push(color.a);
            proof {
                assert forall|k: int| 0 <= k < i + 1 implies pixel_of(data@, k) == color by {
                    if k < i {
                        assert(pixel_of(data@, k) == pixel_of(before, k));
                    }
                }
            }
            i += 1;
        }
        let out = RasterImage { width, height, data };
        proof {
            let want = Bitmap::solid(width as nat, height as nat, color);
            assert forall|x: int, y: int| out@.contains(x, y) implies out@.px(x, y) == want.px(
                x,
                y,
            ) by {
                lemma_position(width as int, height as int, x, y);
            }
            lemma_bitmap_ext(out@, want);
        }
        out
    }

    /// A copy of the image.
    pub fn copy(&self) -> (out: RasterImage)
        ensures
            out.wf() == self.wf(),
            out@ == self@,
            out.bytes() == self.bytes(),
    {
        let data = self.data.clone();
        assert(data@ =~= self.data@);
        RasterImage { width: self.width, height: self.height, data }
    }

    /// Wraps a byte buffer; `None` unless it holds four bytes for each pixel.
    pub fn from_raw(width: u32, height: u32, data: Vec<u8>) -> (out: Option<RasterImage>)
        ensures
            out is Some <==> data@.len() == 4 * (width * height),
            out matches Some(img) ==> ({
                &&& img.wf()
                &&& img.bytes() == data@
                &&& img@ == Bitmap::from_bytes(width as nat, height as nat, data@)
            }),
    {
        assert(width * height <= 0xffff_ffff * 0xffff_ffff) by (nonlinear_arith)
            requires
                0 <= width <= 0xffff_ffff,
                0 <= height <= 0xffff_ffff,
        ;
        let pixels: u64 = (width as u64) * (height as u64);
        if (data.len() as u64) % 4 == 0 && (data.len() as u64) / 4 == pixels {
            Some(RasterImage { width, height, data })
        } else {
            None
        }
    }

    /// Gives up the byte buffer: the pixels row by row, four bytes each.
    pub fn into_raw(self) -> (data: Vec<u8>)
        ensures
            data@ == self.bytes(),
            self@ == Bitmap::from_bytes(self@.width, self@.height, data@),
            self.wf() ==> data@.len() == 4 * (self@.width * self@.height),
    {
        self.data
    }

    fn offset(&self, x: u32, y: u32) -> (i: usize)
        requires
            self.wf(),
            x < self.width,
            y < self.height,
        ensures
            i == 4 * (y * self.width + x),
            i + 3 < self.data@.len(),
    {
        proof {
            lemma_position(self.width as int, self.height as int, x as int, y as int);
            assert(0 <= y * self.width <= y * self.width + x) by (nonlinear_arith)
                requires
                    0 <= y,
                    0 <= self.width,
                    0 <= x,
            ;
            assert(self.data@.len() == self.data.len() <= usize::MAX);
            assert(4 * (y * self.width + x) + 3 < 4 * (self.width * self.height));
        }
        let w: usize = self.width as usize;
        let row: usize = (y as usize) * w;
        (row + x as usize) * 4
    }

    /// Reads the pixel at `(x, y)`.
    pub fn get_pixel(&self, x: u32, y: u32) -> (p: Rgba)
        requires
            self.wf(),
            self@.contains(x as int, y as int),
        ensures
            p == self@.px(x as int, y as int),
    {
        let i: usize = self.offset(x, y);
        Rgba { r: self.data[i], g: self.data[i + 1], b: self.data[i + 2], a: self.data[i + 3] }
    }

    /// Writes the pixel at `(x, y)`.
    pub fn put_pixel(&mut self, x: u32, y: u32, p: Rgba)
        requires
            old(self).wf(),
            old(self)@.contains(x as int, y as int),
        ensures
            final(self).wf(),
            final(self)@ == old(self)@.with_px(x as int, y as int, p),
    {
        let i: usize = self.offset(x, y);
        self.data.set(i, p.r);
        self.data.set(i + 1, p.g);
        self.data.set(i + 2, p.b);
        self.data.set(i + 3, p.a);
        proof {
            let w = self.width as int;
            let h = self.height as int;
            let before = old(self)@;
            let after = self@;
            let want = before.with_px(x as int, y as int, p);
            lemma_position(w, h, x as int, y as int);
            assert forall|xx: int, yy: int| after.contains(xx, yy) implies after.px(xx, yy)
                == want.px(xx, yy) by {
                lemma_position(w, h, xx, yy);
                if yy * w + xx != y * w + x {
                    assert(pixel_of(self.data@, yy * w + xx) == pixel_of(
                        old(self).data@,
                        yy * w + xx,
                    ));
                } else {
                    assert(xx == x && yy == y);
                }
            }
            lemma_bitmap_ext(after, want);
        }
    }
}

} // verus!
