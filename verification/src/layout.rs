//! Where everything goes: the canvas size, the crop, the fitted size of the
//! photo, its offset, the mat and the preview square. Sizes in, sizes out.

use crate::defaults::REM_PARTS;
use crate::options::BorderOptions;
use crate::types::{BorderWidthSpec, CropSpec, OutputSize, Point, Rect, Rotation, ScaleFactor, Size};
use crate::utils::{fit_dimensions, lemma_fit_within, resize_dimensions};
use vstd::prelude::*;

verus! {

/// The canvas size: each side as overridden, else as the photo has it.
pub open spec fn resolved_size(photo: Size, output: Option<OutputSize>) -> Size {
    match output {
        Some(o) => Size {
            width: if let Some(w) = o.width { w } else { photo.width },
            height: if let Some(h) = o.height { h } else { photo.height },
        },
        None => photo,
    }
}

/// Resolves the canvas size: each side as overridden, else as the photo has it.
pub fn resolve_size(photo: Size, output: Option<OutputSize>) -> (out: Size)
    ensures
        out == resolved_size(photo, output),
{
    match output {
        Some(o) => Size {
            width: if let Some(w) = o.width { w } else { photo.width },
            height: if let Some(h) = o.height { h } else { photo.height },
        },
        None => photo,
    }
}

/// The size of an image after turning it: quarter turns swap the sides.
pub open spec fn rotated_size(size: Size, rotation: Option<Rotation>) -> Size {
    match rotation {
        Some(Rotation::Rotate90) | Some(Rotation::Rotate270) => Size {
            width: size.height,
            height: size.width,
        },
        _ => size,
    }
}

/// The size of an image after turning it.
pub fn rotate_size(size: Size, rotation: Option<Rotation>) -> (out: Size)
    ensures
        out == rotated_size(size, rotation),
{
    match rotation {
        Some(Rotation::Rotate90) | Some(Rotation::Rotate270) => Size {
            width: size.height,
            height: size.width,
        },
        _ => size,
    }
}

/// The longer side of the canvas.
pub open spec fn longer_side(canvas: Size) -> int {
    if canvas.width >= canvas.height {
        canvas.width as int
    } else {
        canvas.height as int
    }
}

/// A measure given in thousandths of the longer canvas side, in pixels,
/// rounded down.
pub open spec fn rem_pixels(units: int, canvas: Size) -> int {
    units * longer_side(canvas) / (REM_PARTS as int)
}

/// On a canvas whose longer side is a thousand pixels, a measure is its own
/// number of pixels.
pub proof fn lemma_rem_on_thousand(units: int, canvas: Size)
    requires
        longer_side(canvas) == 1000,
    ensures
        rem_pixels(units, canvas) == units,
{
    assert(units * 1000 / 1000 == units);
}

/// Converts a measure in thousandths of the longer canvas side to pixels,
/// rounding down.
pub fn rem_to_pixels(units: u32, canvas: Size) -> (out: u64)
    ensures
        out == rem_pixels(units as int, canvas),
        out <= 0x0fff_ffff_ffff_ffff,
{
    let longer: u64 = if canvas.width >= canvas.height {
        canvas.width as u64
    } else {
        canvas.height as u64
    };
    assert(0 <= units * longer <= 0xffff_ffff * 0xffff_ffff) by (nonlinear_arith)
        requires
            0 <= units <= 0xffff_ffff,
            0 <= longer <= 0xffff_ffff,
    ;
    (units as u64) * longer / REM_PARTS
}

/// The measure of one optional side; a missing side measures nothing.
pub open spec fn side_units(side: Option<u32>) -> int {
    match side {
        Some(v) => v as int,
        None => 0,
    }
}

/// The smaller of two integers.
pub open spec fn min_int(a: int, b: int) -> int {
    if a <= b {
        a
    } else {
        b
    }
}

/// `a`, or zero where `a` is negative.
pub open spec fn at_least_zero(a: int) -> int {
    if a >= 0 {
        a
    } else {
        0
    }
}

/// The rectangle that is kept of a photo of the given size. `left` and `top`
/// are cut from the near edges, `right` and `bottom` from the far ones; where
/// more is cut than there is, nothing is left.
pub open spec fn crop_rect(photo: Size, crop: CropSpec, canvas: Size) -> Rect {
    let left = rem_pixels(side_units(crop.left), canvas);
    let top = rem_pixels(side_units(crop.top), canvas);
    let right = rem_pixels(side_units(crop.right), canvas);
    let bottom = rem_pixels(side_units(crop.bottom), canvas);
    Rect {
        x: min_int(left, photo.width as int) as u32,
        y: min_int(top, photo.height as int) as u32,
        width: at_least_zero(photo.width - right - left) as u32,
        height: at_least_zero(photo.height - bottom - top) as u32,
    }
}

/// What is left of `length` after cutting `near` and `far` from its ends.
fn remaining(length: u32, near: u64, far: u64) -> (out: u32)
    requires
        near <= 0x0fff_ffff_ffff_ffff,
        far <= 0x0fff_ffff_ffff_ffff,
    ensures
        out == at_least_zero(length - far - near),
{
    let cut: u64 = near + far;
    if cut >= length as u64 {
        0
    } else {
        ((length as u64) - cut) as u32
    }
}

fn side_of(side: Option<u32>) -> (out: u32)
    ensures
        out == side_units(side),
{
    match side {
        Some(v) => v,
        None => 0,
    }
}

/// Works out the rectangle that is kept of a photo. It lies within the photo.
pub fn crop_rectangle(photo: Size, crop: CropSpec, canvas: Size) -> (out: Rect)
    ensures
        out == crop_rect(photo, crop, canvas),
        out.x + out.width <= photo.width,
        out.y + out.height <= photo.height,
{
    let left: u64 = rem_to_pixels(side_of(crop.left), canvas);
    let top: u64 = rem_to_pixels(side_of(crop.top), canvas);
    let right: u64 = rem_to_pixels(side_of(crop.right), canvas);
    let bottom: u64 = rem_to_pixels(side_of(crop.bottom), canvas);
    Rect {
        x: if left <= photo.width as u64 { left as u32 } else { photo.width },
        y: if top <= photo.height as u64 { top as u32 } else { photo.height },
        width: remaining(photo.width, left, right),
        height: remaining(photo.height, top, bottom),
    }
}

/// The size at which the photo is drawn: fitted into the canvas, then shrunk
/// by the scale factor where there is one.
pub open spec fn fit_size(photo: Size, canvas: Size, scale: Option<ScaleFactor>) -> Size {
    let fit = fit_dimensions(
        photo.width as int,
        photo.height as int,
        canvas.width as int,
        canvas.height as int,
    );
    match scale {
        Some(f) => Size { width: f.apply(fit.0) as u32, height: f.apply(fit.1) as u32 },
        None => Size { width: fit.0 as u32, height: fit.1 as u32 },
    }
}

/// The photo is never drawn larger than the canvas, whatever its size and
/// whatever the scale factor.
pub proof fn lemma_fit_size_within(photo: Size, canvas: Size, scale: Option<ScaleFactor>)
    requires
        scale matches Some(f) ==> f.wf(),
    ensures
        fit_size(photo, canvas, scale).width <= canvas.width,
        fit_size(photo, canvas, scale).height <= canvas.height,
{
    let fit = fit_dimensions(
        photo.width as int,
        photo.height as int,
        canvas.width as int,
        canvas.height as int,
    );
    lemma_fit_within(
        photo.width as int,
        photo.height as int,
        canvas.width as int,
        canvas.height as int,
    );
    if let Some(f) = scale {
        f.lemma_shrinks(fit.0);
        f.lemma_shrinks(fit.1);
    }
}

/// A scale factor of one half halves the fitted size on each side, rounding
/// down.
pub proof fn lemma_half_scale_halves_fit(photo: Size, canvas: Size, half: ScaleFactor)
    requires
        half.wf(),
        2 * half.numer() == half.denom(),
    ensures
        fit_size(photo, canvas, Some(half)).width == fit_size(photo, canvas, None).width / 2,
        fit_size(photo, canvas, Some(half)).height == fit_size(photo, canvas, None).height / 2,
{
    let fit = fit_dimensions(
        photo.width as int,
        photo.height as int,
        canvas.width as int,
        canvas.height as int,
    );
    lemma_fit_within(
        photo.width as int,
        photo.height as int,
        canvas.width as int,
        canvas.height as int,
    );
    half.lemma_half_halves(fit.0);
    half.lemma_half_halves(fit.1);
}

/// Fits the photo into the canvas and shrinks it by the scale factor. The
/// result never exceeds the canvas.
pub fn fit(photo: Size, canvas: Size, scale: Option<ScaleFactor>) -> (out: Size)
    ensures
        out == fit_size(photo, canvas, scale),
        out.width <= canvas.width,
        out.height <= canvas.height,
{
    let (w, h) = resize_dimensions(photo.width, photo.height, canvas.width, canvas.height);
    match scale {
        Some(f) => Size { width: f.scale(w), height: f.scale(h) },
        None => Size { width: w, height: h },
    }
}

/// The offset that centres `fit` on the canvas: half the room that is left on
/// each axis, rounded down, and zero where there is none.
pub open spec fn centered(canvas: Size, fit: Size) -> Point {
    Point {
        x: (at_least_zero(canvas.width - fit.width) / 2) as u32,
        y: (at_least_zero(canvas.height - fit.height) / 2) as u32,
    }
}

/// Centres `fit` on the canvas.
pub fn center(canvas: Size, fit: Size) -> (out: Point)
    ensures
        out == centered(canvas, fit),
        fit.width <= canvas.width ==> out.x + fit.width <= canvas.width,
        fit.height <= canvas.height ==> out.y + fit.height <= canvas.height,
{
    Point {
        x: if canvas.width >= fit.width { (canvas.width - fit.width) / 2 } else { 0 },
        y: if canvas.height >= fit.height { (canvas.height - fit.height) / 2 } else { 0 },
    }
}

/// The corners of the mat: the photo's rectangle grown by each side's
/// measure, cut to the canvas.
pub open spec fn mat_corners(canvas: Size, offset: Point, fit: Size, border: BorderWidthSpec) -> (
    Point,
    Point,
) {
    (
        Point {
            x: at_least_zero(offset.x - rem_pixels(border.left as int, canvas)) as u32,
            y: at_least_zero(offset.y - rem_pixels(border.top as int, canvas)) as u32,
        },
        Point {
            x: min_int(
                offset.x + fit.width + rem_pixels(border.right as int, canvas),
                canvas.width as int,
            ) as u32,
            y: min_int(
                offset.y + fit.height + rem_pixels(border.bottom as int, canvas),
                canvas.height as int,
            ) as u32,
        },
    )
}

fn pulled_back(at: u32, by: u64) -> (out: u32)
    ensures
        out == at_least_zero(at - by),
{
    if by >= at as u64 {
        0
    } else {
        ((at as u64) - by) as u32
    }
}

fn pushed_out(at: u32, length: u32, by: u64, limit: u32) -> (out: u32)
    requires
        by <= 0x0fff_ffff_ffff_ffff,
    ensures
        out == min_int(at + length + by, limit as int),
{
    let far: u64 = (at as u64) + (length as u64) + by;
    if far <= limit as u64 {
        far as u32
    } else {
        limit
    }
}

/// Works out the corners of the mat around the photo.
pub fn mat_rectangle(canvas: Size, offset: Point, fit: Size, border: BorderWidthSpec) -> (out: (
    Point,
    Point,
))
    ensures
        out == mat_corners(canvas, offset, fit, border),
{
    let left: u64 = rem_to_pixels(border.left, canvas);
    let top: u64 = rem_to_pixels(border.top, canvas);
    let right: u64 = rem_to_pixels(border.right, canvas);
    let bottom: u64 = rem_to_pixels(border.bottom, canvas);
    (
        Point { x: pulled_back(offset.x, left), y: pulled_back(offset.y, top) },
        Point {
            x: pushed_out(offset.x, fit.width, right, canvas.width),
            y: pushed_out(offset.y, fit.height, bottom, canvas.height),
        },
    )
}

/// The corners of the centred square of the canvas, whose side is the
/// shorter canvas side.
pub open spec fn preview_corners(canvas: Size) -> (Point, Point) {
    if canvas.width <= canvas.height {
        let y = (canvas.height - canvas.width) / 2;
        (Point { x: 0, y: y as u32 }, Point { x: canvas.width, y: (y + canvas.width) as u32 })
    } else {
        let x = (canvas.width - canvas.height) / 2;
        (Point { x: x as u32, y: 0 }, Point { x: (x + canvas.height) as u32, y: canvas.height })
    }
}

/// Works out the corners of the centred square of the canvas.
pub fn preview_square(canvas: Size) -> (out: (Point, Point))
    ensures
        out == preview_corners(canvas),
{
    if canvas.width <= canvas.height {
        let y: u32 = (canvas.height - canvas.width) / 2;
        (Point { x: 0, y }, Point { x: canvas.width, y: y + canvas.width })
    } else {
        let x: u32 = (canvas.width - canvas.height) / 2;
        (Point { x, y: 0 }, Point { x: x + canvas.height, y: canvas.height })
    }
}

/// The geometry of the photo: how it is cut, at what size it is drawn, and
/// where.
#[derive(Clone, Copy, Debug, PartialEq, Eq, Structural)]
pub struct TransformPlan {
    /// Whether the turned photo is at least as high as wide.
    pub portrait: bool,
    /// The part of the turned photo that is kept, where a crop is asked for.
    pub crop: Option<Rect>,
    /// The size at which the photo is drawn.
    pub fit: Size,
    /// Where the photo's top-left corner goes.
    pub offset: Point,
}

/// The size of the turned photo after cutting it.
pub open spec fn cut_size(turned: Size, crop: Option<Rect>) -> Size {
    match crop {
        Some(r) => Size { width: r.width, height: r.height },
        None => turned,
    }
}

/// The geometry of a photo of the given size on a canvas: the photo is
/// turned, its orientation is taken, it is cut, fitted into the canvas and
/// shrunk, and centred.
pub open spec fn transform_plan(
    photo: Size,
    rotation: Option<Rotation>,
    crop: Option<CropSpec>,
    canvas: Size,
    scale: Option<ScaleFactor>,
) -> TransformPlan {
    let turned = rotated_size(photo, rotation);
    let cut = match crop {
        Some(c) => Some(crop_rect(turned, c, canvas)),
        None => None,
    };
    let fit = fit_size(cut_size(turned, cut), canvas, scale);
    TransformPlan {
        portrait: turned.width <= turned.height,
        crop: cut,
        fit,
        offset: centered(canvas, fit),
    }
}

/// Works out the geometry of a photo of the given size on a canvas. The
/// fitted photo lies within the canvas.
pub fn plan_transform(
    photo: Size,
    rotation: Option<Rotation>,
    crop: Option<CropSpec>,
    canvas: Size,
    scale: Option<ScaleFactor>,
) -> (out: TransformPlan)
    ensures
        out == transform_plan(photo, rotation, crop, canvas, scale),
        out.fit.width <= canvas.width,
        out.fit.height <= canvas.height,
        out.offset.x + out.fit.width <= canvas.width,
        out.offset.y + out.fit.height <= canvas.height,
{
    let turned = rotate_size(photo, rotation);
    let cut = match crop {
        Some(c) => Some(crop_rectangle(turned, c, canvas)),
        None => None,
    };
    let kept = match cut {
        Some(r) => Size { width: r.width, height: r.height },
        None => turned,
    };
    let fit = fit(kept, canvas, scale);
    TransformPlan {
        portrait: turned.width <= turned.height,
        crop: cut,
        fit,
        offset: center(canvas, fit),
    }
}

/// The geometry of one rendering.
#[derive(Clone, Copy, Debug, PartialEq, Eq)]
pub struct Layout {
    /// The size of the canvas.
    pub canvas: Size,
    /// Whether the turned photo is at least as high as wide.
    pub portrait: bool,
    /// The part of the turned photo that is kept, where a crop is asked for.
    pub crop: Option<Rect>,
    /// The size at which the photo is drawn.
    pub fit: Size,
    /// Where the photo's top-left corner goes.
    pub offset: Point,
    /// The corners of the mat, where one is asked for.
    pub mat: Option<(Point, Point)>,
    /// The corners of the highlighted square, in a preview.
    pub preview: Option<(Point, Point)>,
}

/// The geometry of rendering a photo of the given size with `options`.
pub open spec fn layout_of(photo: Size, options: BorderOptions) -> Layout {
    let canvas = resolved_size(photo, options.output_size);
    let plan = transform_plan(
        photo,
        options.rotate_angle,
        options.crop,
        canvas,
        options.scale_factor,
    );
    Layout {
        canvas,
        portrait: plan.portrait,
        crop: plan.crop,
        fit: plan.fit,
        offset: plan.offset,
        mat: match options.border_width {
            Some(b) => Some(mat_corners(canvas, plan.offset, plan.fit, b)),
            None => None,
        },
        preview: if options.preview {
            Some(preview_corners(canvas))
        } else {
            None
        },
    }
}

/// Works out the geometry of rendering a photo of the given size. The canvas
/// has the resolved size, and the fitted photo lies within it.
pub fn plan_layout(photo: Size, options: &BorderOptions) -> (out: Layout)
    ensures
        out == layout_of(photo, *options),
        out.canvas == resolved_size(photo, options.output_size),
        out.fit.width <= out.canvas.width,
        out.fit.height <= out.canvas.height,
        out.offset.x + out.fit.width <= out.canvas.width,
        out.offset.y + out.fit.height <= out.canvas.height,
{
    let canvas = resolve_size(photo, options.output_size);
    let plan = plan_transform(
        photo,
        options.rotate_angle,
        options.crop,
        canvas,
        options.scale_factor,
    );
    Layout {
        canvas,
        portrait: plan.portrait,
        crop: plan.crop,
        fit: plan.fit,
        offset: plan.offset,
        mat: match options.border_width {
            Some(b) => Some(mat_rectangle(canvas, plan.offset, plan.fit, b)),
            None => None,
        },
        preview: if options.preview {
            Some(preview_square(canvas))
        } else {
            None
        },
    }
}

} // verus!
