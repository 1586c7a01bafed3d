//! Rotation, cropping, resampling and overlaying of raster images, carried
//! out by the `image` crate behind stated contracts.

use crate::img::{lemma_bitmap_ext, lemma_from_fn, Bitmap, RasterImage, Rgba};
use crate::types::{Rect, Rotation};
use vstd::prelude::*;

verus! {

/// The resampling kernels in use.
#[derive(Clone, Copy, Debug, PartialEq, Eq, Structural)]
pub enum Filter {
    /// A windowed sinc over three lobes; used for the photo.
    Lanczos3,
    /// Linear interpolation; used for the decorative frame.
    Triangle,
}

/// The image turned a quarter turn clockwise.
pub open spec fn rotated90(b: Bitmap) -> Bitmap {
    Bitmap::from_fn(b.height, b.width, |x: int, y: int| b.px(y, b.height - 1 - x))
}

/// The image turned a half turn.
pub open spec fn rotated180(b: Bitmap) -> Bitmap {
    Bitmap::from_fn(b.width, b.height, |x: int, y: int| b.px(b.width - 1 - x, b.height - 1 - y))
}

/// The image turned three quarter turns clockwise.
pub open spec fn rotated270(b: Bitmap) -> Bitmap {
    Bitmap::from_fn(b.height, b.width, |x: int, y: int| b.px(b.width - 1 - y, x))
}

/// The image turned by `rotation`.
pub open spec fn rotated(b: Bitmap, rotation: Rotation) -> Bitmap {
    match rotation {
        Rotation::Rotate0 => b,
        Rotation::Rotate90 => rotated90(b),
        Rotation::Rotate180 => rotated180(b),
        Rotation::Rotate270 => rotated270(b),
    }
}

/// Two quarter turns make a half turn.
pub proof fn lemma_rotate90_twice(b: Bitmap)
    requires
        b.wf(),
    ensures
        rotated90(rotated90(b)) == rotated180(b),
{
    let once = rotated90(b);
    lemma_from_fn(b.height, b.width, |x: int, y: int| b.px(y, b.height - 1 - x));
    lemma_from_fn(once.height, once.width, |x: int, y: int| once.px(y, once.height - 1 - x));
    lemma_from_fn(b.width, b.height, |x: int, y: int| b.px(b.width - 1 - x, b.height - 1 - y));
    lemma_bitmap_ext(rotated90(once), rotated180(b));
}

/// A quarter turn after a half turn makes three quarter turns.
pub proof fn lemma_rotate90_thrice(b: Bitmap)
    requires
        b.wf(),
    ensures
        rotated90(rotated180(b)) == rotated270(b),
{
    let half = rotated180(b);
    lemma_from_fn(b.width, b.height, |x: int, y: int| b.px(b.width - 1 - x, b.height - 1 - y));
    lemma_from_fn(half.height, half.width, |x: int, y: int| half.px(y, half.height - 1 - x));
    lemma_from_fn(b.height, b.width, |x: int, y: int| b.px(b.width - 1 - y, x));
    lemma_bitmap_ext(rotated90(half), rotated270(b));
}

/// A quarter turn after three quarter turns gives the image back.
pub proof fn lemma_rotate90_closes(b: Bitmap)
    requires
        b.wf(),
    ensures
        rotated90(rotated270(b)) == b,
{
    let most = rotated270(b);
    lemma_from_fn(b.height, b.width, |x: int, y: int| b.px(b.width - 1 - y, x));
    lemma_from_fn(most.height, most.width, |x: int, y: int| most.px(y, most.height - 1 - x));
    lemma_bitmap_ext(rotated90(most), b);
}

/// Four quarter turns give every image back, pixel for pixel.
pub proof fn lemma_rotate90_four_times(b: Bitmap)
    requires
        b.wf(),
    ensures
        rotated90(rotated90(rotated90(rotated90(b)))) == b,
{
    lemma_rotate90_twice(b);
    lemma_rotate90_thrice(b);
    lemma_rotate90_closes(b);
}

/// The part of `rect` that lies inside an image of the given size: the corner
/// is pulled back to the far edges, the extent cut to what is left.
pub open spec fn clipped(width: nat, height: nat, rect: Rect) -> Rect {
    let x = if rect.x <= width { rect.x } else { width as u32 };
    let y = if rect.y <= height { rect.y } else { height as u32 };
    Rect {
        x,
        y,
        width: if rect.width <= width - x { rect.width } else { (width - x) as u32 },
        height: if rect.height <= height - y { rect.height } else { (height - y) as u32 },
    }
}

/// The pixels of `b` inside `rect`, after clipping `rect` to the image.
pub open spec fn cropped(b: Bitmap, rect: Rect) -> Bitmap {
    let c = clipped(b.width, b.height, rect);
    Bitmap::from_fn(c.width as nat, c.height as nat, |x: int, y: int| b.px(c.x + x, c.y + y))
}

/// What source-over compositing of `fg` onto `bg` gives when `fg` is neither
/// fully transparent nor fully opaque.
pub uninterp spec fn blended(bg: Rgba, fg: Rgba) -> Rgba;

/// Source-over compositing of `fg` onto `bg`: a transparent `fg` leaves `bg`,
/// an opaque one replaces it, anything between blends.
pub open spec fn composite(bg: Rgba, fg: Rgba) -> Rgba {
    if fg.a == 0 {
        bg
    } else if fg.a == 255 {
        fg
    } else {
        blended(bg, fg)
    }
}

/// `top` composited onto `bottom` with its top-left corner at `(x, y)`;
/// what falls outside `bottom` is dropped.
pub open spec fn overlaid(bottom: Bitmap, top: Bitmap, x: int, y: int) -> Bitmap {
    Bitmap::from_fn(
        bottom.width,
        bottom.height,
        |bx: int, by: int|
            if top.contains(bx - x, by - y) {
                composite(bottom.px(bx, by), top.px(bx - x, by - y))
            } else {
                bottom.px(bx, by)
            },
    )
}

/// What resampling `src` to `width` by `height` with `filter` gives when
/// `src` is not empty and the size changes.
pub uninterp spec fn resampled(src: Bitmap, width: nat, height: nat, filter: Filter) -> Bitmap;

/// `src` brought to `width` by `height`: an empty source gives a transparent
/// image, an unchanged size gives a copy, anything else is resampled.
pub open spec fn resized(src: Bitmap, width: nat, height: nat, filter: Filter) -> Bitmap {
    if src.width == 0 || src.height == 0 {
        Bitmap::solid(width, height, Rgba { r: 0, g: 0, b: 0, a: 0 })
    } else if src.width == width && src.height == height {
        src
    } else {
        resampled(src, width, height, filter)
    }
}

/// The bytes of `width * height` pixels, four each, fit into half of the
/// address space, which is as much as one allocation can hold.
pub open spec fn storable(width: int, height: int) -> bool {
    8 * (width * height) <= usize::MAX
}

/// A working copy of `width * height` pixels in floating point, sixteen
/// bytes each, fits into half of the address space.
pub open spec fn workable(width: int, height: int) -> bool {
    32 * (width * height) <= usize::MAX
}

/// Whether resampling an image `src_width` wide to `width` by `height`
/// stays within memory limits: resampling goes by way of an intermediate
/// image of the old width and the new height, and both that and the result
/// must be workable.
pub open spec fn resizable(src_width: int, width: int, height: int) -> bool {
    workable(src_width, height) && workable(width, height)
}

/// Calls `image::imageops::rotate90`, which writes source pixel `(x, y)` to
/// `(height - 1 - y, x)` of a new image with the sides swapped.
#[verifier::external_body]
fn rotate90(src: &RasterImage) -> (out: RasterImage)
    requires
        src.wf(),
    ensures
        out.wf(),
        out@ == rotated90(src@),
{
    let view = image::ImageBuffer::<image::Rgba<u8>, &[u8]>::from_raw(
        src.width,
        src.height,
        src.data.as_slice(),
    ).unwrap();
    let turned = image::imageops::rotate90(&view);
    RasterImage { width: turned.width(), height: turned.height(), data: turned.into_raw() }
}

/// Calls `image::imageops::rotate180`, which writes source pixel `(x, y)` to
/// `(width - 1 - x, height - 1 - y)` of a new image of the same size.
#[verifier::external_body]
fn rotate180(src: &RasterImage) -> (out: RasterImage)
    requires
        src.wf(),
    ensures
        out.wf(),
        out@ == rotated180(src@),
{
    let view = image::ImageBuffer::<image::Rgba<u8>, &[u8]>::from_raw(
        src.width,
        src.height,
        src.data.as_slice(),
    ).unwrap();
    let turned = image::imageops::rotate180(&view);
    RasterImage { width: turned.width(), height: turned.height(), data: turned.into_raw() }
}

/// Calls `image::imageops::rotate270`, which writes source pixel `(x, y)` to
/// `(y, width - 1 - x)` of a new image with the sides swapped.
#[verifier::external_body]
fn rotate270(src: &RasterImage) -> (out: RasterImage)
    requires
        src.wf(),
    ensures
        out.wf(),
        out@ == rotated270(src@),
{
    let view = image::ImageBuffer::<image::Rgba<u8>, &[u8]>::from_raw(
        src.width,
        src.height,
        src.data.as_slice(),
    ).unwrap();
    let turned = image::imageops::rotate270(&view);
    RasterImage { width: turned.width(), height: turned.height(), data: turned.into_raw() }
}

/// Calls `image::imageops::crop_imm` and copies the view out with
/// `SubImage::to_image`. The crate pulls the corner back to the image's far
/// edges, cuts the extent to what is left, and copies those pixels.
#[verifier::external_body]
fn crop_imm(src: &RasterImage, rect: Rect) -> (out: RasterImage)
    requires
        src.wf(),
    ensures
        out.wf(),
        out@ == cropped(src@, rect),
{
    let whole = image::RgbaImage::from_raw(src.width, src.height, src.data.clone()).unwrap();
    let cut = image::imageops::crop_imm(&whole, rect.x, rect.y, rect.width, rect.height).to_image();
    RasterImage { width: cut.width(), height: cut.height(), data: cut.into_raw() }
}

/// Calls `image::imageops::resize` on an image that is not empty. The result
/// has the size asked for; it is a copy where the size does not change, and
/// otherwise what the crate's two-pass sampling computes, which this library
/// names and does not describe. The crate indexes out of bounds on an empty
/// source and allocates a floating-point intermediate of the source's width
/// by the new height, hence the preconditions.
#[verifier::external_body]
fn resize_with(src: &RasterImage, width: u32, height: u32, filter: Filter) -> (out: RasterImage)
    requires
        src.wf(),
        src@.width > 0,
        src@.height > 0,
        resizable(src@.width as int, width as int, height as int),
    ensures
        out.wf(),
        out@.wf(),
        out@.width == width,
        out@.height == height,
        out@ == (if src@.width == width && src@.height == height {
            src@
        } else {
            resampled(src@, width as nat, height as nat, filter)
        }),
{
    let view = image::ImageBuffer::<image::Rgba<u8>, &[u8]>::from_raw(
        src.width,
        src.height,
        src.data.as_slice(),
    ).unwrap();
    let kernel = match filter {
        Filter::Lanczos3 => image::imageops::FilterType::Lanczos3,
        Filter::Triangle => image::imageops::FilterType::Triangle,
    };
    let sized = image::imageops::resize(&view, width, height, kernel);
    RasterImage { width: sized.width(), height: sized.height(), data: sized.into_raw() }
}

/// Calls `image::imageops::overlay`, which blends each pixel of `top` that
/// lands inside `bottom` onto the pixel below it and leaves the rest alone.
#[verifier::external_body]
fn overlay_onto(bottom: &mut RasterImage, top: &RasterImage, x: i64, y: i64)
    requires
        old(bottom).wf(),
        top.wf(),
    ensures
        final(bottom).wf(),
        final(bottom)@ == overlaid(old(bottom)@, top@, x as int, y as int),
{
    let over = image::ImageBuffer::<image::Rgba<u8>, &[u8]>::from_raw(
        top.width,
        top.height,
        top.data.as_slice(),
    ).unwrap();
    let bytes = std::mem::take(&mut bottom.data);
    let mut under = image::RgbaImage::from_raw(bottom.width, bottom.height, bytes).unwrap();
    image::imageops::overlay(&mut under, &over, x, y);
    bottom.data = under.into_raw();
}

/// Calls `image::Pixel::blend` on one pixel. The crate returns at once for a
/// transparent foreground, copies an opaque one, and otherwise computes the
/// source-over blend in floating point, which this library names and does
/// not describe.
#[verifier::external_body]
pub(crate) fn blend(bg: Rgba, fg: Rgba) -> (out: Rgba)
    ensures
        out == (if fg.a == 0 {
            bg
        } else if fg.a == 255 {
            fg
        } else {
            blended(bg, fg)
        }),
{
    let mut under = image::Rgba([bg.r, bg.g, bg.b, bg.a]);
    image::Pixel::blend(&mut under, &image::Rgba([fg.r, fg.g, fg.b, fg.a]));
    Rgba { r: under.0[0], g: under.0[1], b: under.0[2], a: under.0[3] }
}

/// Whether `parts * width * height` fits into a `usize`.
fn fits_address_space(parts: u64, width: u64, height: u64) -> (ok: bool)
    requires
        parts > 0,
    ensures
        ok == (parts * (width * height) <= usize::MAX),
{
    let limit: u64 = (usize::MAX as u64) / parts;
    proof {
        let p = parts as int;
        let m = usize::MAX as int;
        let l = limit as int;
        let v = width * height;
        assert(v <= l <==> p * v <= m) by (nonlinear_arith)
            requires
                p > 0,
                m >= 0,
                l == m / p,
        ;
    }
    if width == 0 || height == 0 {
        assert(width * height == 0) by (nonlinear_arith)
            requires
                width == 0 || height == 0,
        ;
        true
    } else if width > limit {
        assert(width * height >= width) by (nonlinear_arith)
            requires
                height >= 1,
                width >= 0,
        ;
        false
    } else {
        let ok = height <= limit / width;
        proof {
            let l = limit as int;
            let w = width as int;
            let h = height as int;
            assert(h <= l / w <==> w * h <= l) by (nonlinear_arith)
                requires
                    w > 0,
                    h >= 0,
                    l >= 0,
            ;
        }
        ok
    }
}

/// Whether a floating-point working copy of `width * height` pixels fits
/// into memory.
pub fn is_workable(width: u64, height: u64) -> (ok: bool)
    ensures
        ok == workable(width as int, height as int),
{
    fits_address_space(32, width, height)
}

/// Whether the bytes of `width * height` pixels fit into one allocation.
pub fn is_storable(width: u64, height: u64) -> (ok: bool)
    ensures
        ok == storable(width as int, height as int),
{
    fits_address_space(8, width, height)
}

impl RasterImage {
    /// Turns the image clockwise by `rotation`.
    pub fn rotate(&self, rotation: Rotation) -> (out: RasterImage)
        requires
            self.wf(),
        ensures
            out.wf(),
            out@ == rotated(self@, rotation),
    {
        match rotation {
            Rotation::Rotate0 => self.copy(),
            Rotation::Rotate90 => rotate90(self),
            Rotation::Rotate180 => rotate180(self),
            Rotation::Rotate270 => rotate270(self),
        }
    }

    /// Copies out the pixels inside `rect`, clipped to the image.
    pub fn crop(&self, rect: Rect) -> (out: RasterImage)
        requires
            self.wf(),
        ensures
            out.wf(),
            out@ == cropped(self@, rect),
    {
        crop_imm(self, rect)
    }

    /// Brings the image to `width` by `height`; `None` exactly when that
    /// would exceed the memory limits.
    pub fn resize(&self, width: u32, height: u32, filter: Filter) -> (out: Option<RasterImage>)
        requires
            self.wf(),
        ensures
            out is Some <==> resizable(self@.width as int, width as int, height as int),
            out matches Some(img) ==> ({
                &&& img.wf()
                &&& img@ == resized(self@, width as nat, height as nat, filter)
                &&& img@.width == width
                &&& img@.height == height
            }),
    {
        if !is_workable(self.width() as u64, height as u64) || !is_workable(
            width as u64,
            height as u64,
        ) {
            None
        } else if self.width() == 0 || self.height() == 0 {
            assert(8 * (width * height) <= 32 * (width * height)) by (nonlinear_arith)
                requires
                    0 <= width,
                    0 <= height,
            ;
            Some(RasterImage::new(width, height, Rgba { r: 0, g: 0, b: 0, a: 0 }))
        } else {
            Some(resize_with(self, width, height, filter))
        }
    }

    /// Composites `top` onto this image with its corner at `(x, y)`.
    pub fn overlay(&mut self, top: &RasterImage, x: i64, y: i64)
        requires
            old(self).wf(),
            top.wf(),
        ensures
            final(self).wf(),
            final(self)@ == overlaid(old(self)@, top@, x as int, y as int),
    {
        overlay_onto(self, top, x, y)
    }
}

} // verus!
