//! The film-strip frame: two end caps cut from the ends of the frame image
//! and as many middle tiles as the gap between them needs, each faded where
//! it meets its neighbour.

use crate::defaults::{CAP_DENOM, CAP_NUMER, FADE_PARTS, TILE_ORIGIN_PARTS, TILE_PARTS};
use crate::img::{fade_out, faded, Bitmap, Direction, RasterImage};
use crate::layout::{at_least_zero, min_int};
use crate::ops::{cropped, overlaid, resizable, resized, rotated90, Filter};
use crate::types::{Point, Rect, RenderError, Rotation, Size};
use vstd::prelude::*;

verus! {

/// The measures of a frame along its fade axis.
#[derive(Clone, Copy, Debug, PartialEq, Eq, Structural)]
pub struct FramePlan {
    /// The axis along which the frame runs and fades.
    pub direction: Direction,
    /// The size of the frame image after scaling.
    pub asset: Size,
    /// The length of the photo along the axis.
    pub length: u32,
    /// The length of the frame image along the axis.
    pub asset_length: u32,
    /// The width of every fade.
    pub fade_width: u32,
    /// The length of each end cap.
    pub cap: u32,
    /// The length that a middle tile covers, fades not counted.
    pub tile: u32,
    /// Where in the frame image a middle tile is cut.
    pub tile_origin: u32,
    /// Where the first middle tile starts.
    pub start: u64,
    /// Where the middle tiles end.
    pub end: u64,
}

/// The frame runs down a portrait photo and across a landscape one.
pub open spec fn fade_direction(portrait: bool) -> Direction {
    if portrait {
        Direction::Vertical
    } else {
        Direction::Horizontal
    }
}

/// The extent of `size` along `direction`.
pub open spec fn length_along(direction: Direction, size: Size) -> u32 {
    match direction {
        Direction::Horizontal => size.width,
        Direction::Vertical => size.height,
    }
}

/// The measures of the frame for a photo drawn at `fit`, given the size of
/// the scaled frame image. The fade width is a twentieth of the fitted
/// height whatever the axis. A cap is three quarters of the photo or of the
/// frame image, whichever is shorter; a tile is half of the shorter one. The
/// tiles run from where the first cap begins to fade to where the second
/// has faded in.
pub open spec fn frame_plan(fit: Size, portrait: bool, asset: Size) -> FramePlan {
    let direction = fade_direction(portrait);
    let length = length_along(direction, fit);
    let asset_length = length_along(direction, asset);
    let fade_width = fit.height as int / (FADE_PARTS as int);
    let cap = min_int(
        CAP_NUMER * length / (CAP_DENOM as int),
        CAP_NUMER * asset_length / (CAP_DENOM as int),
    );
    FramePlan {
        direction,
        asset,
        length,
        asset_length,
        fade_width: fade_width as u32,
        cap: cap as u32,
        tile: min_int(
            length as int / (TILE_PARTS as int),
            asset_length as int / (TILE_PARTS as int),
        ) as u32,
        tile_origin: at_least_zero(
            asset_length as int / (TILE_ORIGIN_PARTS as int) - fade_width,
        ) as u32,
        start: at_least_zero(cap - fade_width) as u64,
        end: (length - cap + fade_width) as u64,
    }
}

/// Works out the measures of the frame for a photo drawn at `fit`, given
/// the size of the scaled frame image.
pub fn plan_frame(fit: Size, portrait: bool, asset: Size) -> (out: FramePlan)
    ensures
        out == frame_plan(fit, portrait, asset),
        out.cap <= out.length,
        out.cap <= out.asset_length,
        out.tile <= 0x7fff_ffff,
        out.fade_width <= 214748364,
        out.end <= 0x1_ffff_ffff,
{
    let direction = if portrait {
        Direction::Vertical
    } else {
        Direction::Horizontal
    };
    let length: u32 = match direction {
        Direction::Horizontal => fit.width,
        Direction::Vertical => fit.height,
    };
    let asset_length: u32 = match direction {
        Direction::Horizontal => asset.width,
        Direction::Vertical => asset.height,
    };
    let fade_width: u32 = (fit.height as u64 / FADE_PARTS) as u32;
    let of_photo: u64 = CAP_NUMER * (length as u64) / CAP_DENOM;
    let of_asset: u64 = CAP_NUMER * (asset_length as u64) / CAP_DENOM;
    let cap: u32 = if of_photo <= of_asset { of_photo as u32 } else { of_asset as u32 };
    let half_photo: u64 = length as u64 / TILE_PARTS;
    let half_asset: u64 = asset_length as u64 / TILE_PARTS;
    let origin: u64 = asset_length as u64 / TILE_ORIGIN_PARTS;
    FramePlan {
        direction,
        asset,
        length,
        asset_length,
        fade_width,
        cap,
        tile: if half_photo <= half_asset { half_photo as u32 } else { half_asset as u32 },
        tile_origin: if origin >= fade_width as u64 {
            (origin - fade_width as u64) as u32
        } else {
            0
        },
        start: if cap >= fade_width { (cap - fade_width) as u64 } else { 0 },
        end: (length - cap) as u64 + fade_width as u64,
    }
}

/// The band of the frame image that starts `from` pixels along the axis and
/// is `length` pixels long, over the full extent across.
pub open spec fn strip(plan: FramePlan, from: u32, length: u32) -> Rect {
    match plan.direction {
        Direction::Horizontal => Rect { x: from, y: 0, width: length, height: plan.asset.height },
        Direction::Vertical => Rect { x: 0, y: from, width: plan.asset.width, height: length },
    }
}

fn strip_of(plan: &FramePlan, from: u32, length: u32) -> (out: Rect)
    ensures
        out == strip(*plan, from, length),
{
    match plan.direction {
        Direction::Horizontal => Rect { x: from, y: 0, width: length, height: plan.asset.height },
        Direction::Vertical => Rect { x: 0, y: from, width: plan.asset.width, height: length },
    }
}

/// The image faded out over its last `fade_width` pixels of `length`: from
/// unchanged where the fade begins to transparent at the last pixel. Without
/// a fade width, or without a length, nothing changes.
pub open spec fn faded_tail(
    b: Bitmap,
    length: int,
    fade_width: int,
    direction: Direction,
) -> Bitmap {
    if fade_width >= 1 && length >= 1 {
        faded(b, at_least_zero(length - fade_width), length - 1, direction)
    } else {
        b
    }
}

fn fade_tail(image: &mut RasterImage, length: u32, fade_width: u32, direction: Direction)
    requires
        old(image).wf(),
    ensures
        final(image).wf(),
        final(image)@ == faded_tail(old(image)@, length as int, fade_width as int, direction),
{
    if fade_width >= 1 && length >= 1 {
        let from: u32 = if length >= fade_width { length - fade_width } else { 0 };
        fade_out(image, from, length - 1, direction);
    }
}

/// The first end cap: the head of the frame image, faded out at its tail.
pub open spec fn top_cap(frame: Bitmap, plan: FramePlan) -> Bitmap {
    faded_tail(
        cropped(frame, strip(plan, 0, plan.cap)),
        plan.cap as int,
        plan.fade_width as int,
        plan.direction,
    )
}

/// The second end cap: the tail of the frame image, faded in at its head.
pub open spec fn bottom_cap(frame: Bitmap, plan: FramePlan) -> Bitmap {
    faded(
        cropped(frame, strip(plan, (plan.asset_length - plan.cap) as u32, plan.cap)),
        plan.fade_width as int,
        0,
        plan.direction,
    )
}

/// The length of the tile that starts at `at`: what is left up to the end,
/// at most a full tile, and a fade width before and after.
pub open spec fn tile_length(plan: FramePlan, at: int) -> int {
    min_int(plan.tile as int, plan.end - at) + 2 * plan.fade_width
}

/// The tile that starts at `at`: a band from the middle of the frame image,
/// faded in at its head and out at its tail.
pub open spec fn tile_image(frame: Bitmap, plan: FramePlan, at: int) -> Bitmap {
    faded_tail(
        faded(
            cropped(frame, strip(plan, plan.tile_origin, tile_length(plan, at) as u32)),
            plan.fade_width as int,
            0,
            plan.direction,
        ),
        tile_length(plan, at),
        plan.fade_width as int,
        plan.direction,
    )
}

/// `piece` composited onto the canvas `at` pixels along the axis from the
/// photo's corner.
pub open spec fn placed(
    canvas: Bitmap,
    piece: Bitmap,
    plan: FramePlan,
    offset: Point,
    at: int,
) -> Bitmap {
    match plan.direction {
        Direction::Horizontal => overlaid(canvas, piece, offset.x + at, offset.y as int),
        Direction::Vertical => overlaid(canvas, piece, offset.x as int, offset.y + at),
    }
}

fn place(canvas: &mut RasterImage, piece: &RasterImage, plan: &FramePlan, offset: Point, at: u64)
    requires
        old(canvas).wf(),
        piece.wf(),
        at <= 0xf_ffff_ffff,
    ensures
        final(canvas).wf(),
        final(canvas)@ == placed(old(canvas)@, piece@, *plan, offset, at as int),
        final(canvas)@.width == old(canvas)@.width,
        final(canvas)@.height == old(canvas)@.height,
{
    match plan.direction {
        Direction::Horizontal => canvas.overlay(
            piece,
            offset.x as i64 + at as i64,
            offset.y as i64,
        ),
        Direction::Vertical => canvas.overlay(piece, offset.x as i64, offset.y as i64 + at as i64),
    }
}

/// The canvas with every tile from `at` on drawn, one tile length apart, as
/// long as a tile starts at or before the end. A tile length of zero draws
/// nothing.
pub open spec fn tiled(
    canvas: Bitmap,
    frame: Bitmap,
    plan: FramePlan,
    offset: Point,
    at: int,
) -> Bitmap
    decreases at_least_zero(plan.end - at + 1),
{
    if plan.tile == 0 || at > plan.end {
        canvas
    } else {
        tiled(
            placed(canvas, tile_image(frame, plan, at), plan, offset, at),
            frame,
            plan,
            offset,
            at + plan.tile,
        )
    }
}

/// The length that the tiles from `at` on cover, their fades not counted.
pub open spec fn tiles_cover(plan: FramePlan, at: int) -> int
    decreases at_least_zero(plan.end - at + 1),
{
    if plan.tile == 0 || at > plan.end {
        0
    } else {
        (tile_length(plan, at) - 2 * plan.fade_width) + tiles_cover(plan, at + plan.tile)
    }
}

/// The tiles from `at` on reach the end exactly: the last one is cut to what
/// is left, so nothing is missed and nothing is overshot.
pub proof fn lemma_tiles_reach_end(plan: FramePlan, at: int)
    requires
        plan.tile > 0,
        at <= plan.end,
    ensures
        tiles_cover(plan, at) == plan.end - at,
    decreases plan.end - at,
{
    if at + plan.tile <= plan.end {
        lemma_tiles_reach_end(plan, at + plan.tile);
    } else {
        assert(tiles_cover(plan, at + plan.tile) == 0);
    }
}

/// Whether the tiles have a gap to fill: the caps are no shorter than a fade
/// and do not reach past each other, and a tile has a length. Where there is
/// nothing to frame, with neither length nor fade, there is nothing to fill.
pub open spec fn tiles_fill_gap(plan: FramePlan) -> bool {
    ||| plan.tile > 0 && plan.cap >= plan.fade_width && plan.start <= plan.end
    ||| plan.tile == 0 && plan.length == 0 && plan.fade_width == 0
}

/// The frame covers the photo exactly, with no gap and nothing twice, if and
/// only if the tiles have a gap to fill: then the two caps without their
/// fades, and the tiles without theirs, add up to the photo's length.
pub proof fn lemma_frame_covers_photo(fit: Size, portrait: bool, asset: Size)
    ensures
        ({
            let plan = frame_plan(fit, portrait, asset);
            tiles_fill_gap(plan) <==> 2 * (plan.cap - plan.fade_width) + tiles_cover(
                plan,
                plan.start as int,
            ) == plan.length
        }),
{
    let plan = frame_plan(fit, portrait, asset);
    if plan.tile > 0 && plan.start <= plan.end {
        lemma_tiles_reach_end(plan, plan.start as int);
    } else {
        assert(tiles_cover(plan, plan.start as int) == 0);
    }
}

/// The canvas with the whole frame drawn: the first cap at the photo's
/// corner, the second flush with the photo's far edge, then the tiles.
pub open spec fn framed(canvas: Bitmap, frame: Bitmap, plan: FramePlan, offset: Point) -> Bitmap {
    let first = placed(canvas, top_cap(frame, plan), plan, offset, 0);
    let second = placed(first, bottom_cap(frame, plan), plan, offset, plan.length - plan.cap);
    tiled(second, frame, plan, offset, plan.start as int)
}

/// The frame image as it is used: turned a quarter turn for a portrait photo.
pub open spec fn oriented(asset: Bitmap, portrait: bool) -> Bitmap {
    if portrait {
        rotated90(asset)
    } else {
        asset
    }
}

/// The size to which the turned frame image is scaled: across the axis it
/// matches the photo exactly, along the axis it keeps its aspect ratio,
/// rounded down.
pub open spec fn scaled_frame_size(fit: Size, portrait: bool, width: int, height: int) -> (
    int,
    int,
) {
    if portrait {
        (fit.width as int, height * fit.width / width)
    } else {
        (width * fit.height / height, fit.height as int)
    }
}

/// Whether the frame can be made within memory limits: it is left out
/// altogether where the frame image is empty, and otherwise its scaled size
/// must be expressible and resampling to it workable.
pub open spec fn frame_fits(asset: Bitmap, fit: Size, portrait: bool) -> bool {
    let turned = oriented(asset, portrait);
    let size = scaled_frame_size(fit, portrait, turned.width as int, turned.height as int);
    turned.width == 0 || turned.height == 0 || {
        &&& size.0 <= u32::MAX
        &&& size.1 <= u32::MAX
        &&& resizable(turned.width as int, size.0, size.1)
    }
}

/// The canvas with the frame for a photo drawn at `fit` with its corner at
/// `offset`. The frame image is turned to the photo's orientation, scaled
/// with the triangle filter, and drawn; an empty frame image draws nothing.
pub open spec fn with_frame(
    canvas: Bitmap,
    asset: Bitmap,
    fit: Size,
    portrait: bool,
    offset: Point,
) -> Bitmap {
    let turned = oriented(asset, portrait);
    let size = scaled_frame_size(fit, portrait, turned.width as int, turned.height as int);
    if turned.width == 0 || turned.height == 0 {
        canvas
    } else {
        framed(
            canvas,
            resized(turned, size.0 as nat, size.1 as nat, Filter::Triangle),
            frame_plan(fit, portrait, Size { width: size.0 as u32, height: size.1 as u32 }),
            offset,
        )
    }
}

/// Drawing tiles does not change the size of the canvas.
pub proof fn lemma_tiled_size(
    canvas: Bitmap,
    frame: Bitmap,
    plan: FramePlan,
    offset: Point,
    at: int,
)
    ensures
        tiled(canvas, frame, plan, offset, at).width == canvas.width,
        tiled(canvas, frame, plan, offset, at).height == canvas.height,
    decreases at_least_zero(plan.end - at + 1),
{
    if plan.tile == 0 || at > plan.end {
    } else {
        lemma_tiled_size(
            placed(canvas, tile_image(frame, plan, at), plan, offset, at),
            frame,
            plan,
            offset,
            at + plan.tile,
        );
    }
}

/// Drawing the frame does not change the size of the canvas.
pub proof fn lemma_with_frame_size(
    canvas: Bitmap,
    asset: Bitmap,
    fit: Size,
    portrait: bool,
    offset: Point,
)
    ensures
        with_frame(canvas, asset, fit, portrait, offset).width == canvas.width,
        with_frame(canvas, asset, fit, portrait, offset).height == canvas.height,
{
    let turned = oriented(asset, portrait);
    if turned.width == 0 || turned.height == 0 {
    } else {
        let size = scaled_frame_size(fit, portrait, turned.width as int, turned.height as int);
        let frame = resized(turned, size.0 as nat, size.1 as nat, Filter::Triangle);
        let plan = frame_plan(fit, portrait, Size { width: size.0 as u32, height: size.1 as u32 });
        let first = placed(canvas, top_cap(frame, plan), plan, offset, 0);
        let second = placed(first, bottom_cap(frame, plan), plan, offset, plan.length - plan.cap);
        lemma_tiled_size(second, frame, plan, offset, plan.start as int);
    }
}

/// Draws the frame for a photo drawn at `fit` with its corner at `offset`,
/// from a frame image that is already turned and scaled.
pub fn draw_frame(
    canvas: &mut RasterImage,
    frame: &RasterImage,
    fit: Size,
    portrait: bool,
    offset: Point,
)
    requires
        old(canvas).wf(),
        frame.wf(),
    ensures
        final(canvas).wf(),
        final(canvas)@ == framed(
            old(canvas)@,
            frame@,
            frame_plan(fit, portrait, frame@.size()),
            offset,
        ),
        final(canvas)@.width == old(canvas)@.width,
        final(canvas)@.height == old(canvas)@.height,
{
    let plan = plan_frame(fit, portrait, frame.size());
    let ghost begin = canvas@;

    let mut top = frame.crop(strip_of(&plan, 0, plan.cap));
    fade_tail(&mut top, plan.cap, plan.fade_width, plan.direction);
    place(canvas, &top, &plan, offset, 0);

    let mut bottom = frame.crop(strip_of(&plan, plan.asset_length - plan.cap, plan.cap));
    fade_out(&mut bottom, plan.fade_width, 0, plan.direction);
    place(canvas, &bottom, &plan, offset, (plan.length - plan.cap) as u64);

    let ghost capped = canvas@;
    let mut at: u64 = plan.start;
    if plan.tile > 0 {
        while at <= plan.end
            invariant
                canvas.wf(),
                frame.wf(),
                canvas@.width == begin.width,
                canvas@.height == begin.height,
                plan.tile > 0,
                plan.tile <= 0x7fff_ffff,
                plan.fade_width <= 214748364,
                plan.end <= 0x1_ffff_ffff,
                at <= plan.end + plan.tile,
                tiled(canvas@, frame@, plan, offset, at as int) == tiled(
                    capped,
                    frame@,
                    plan,
                    offset,
                    plan.start as int,
                ),
            decreases plan.end + plan.tile - at,
        {
            let left: u64 = plan.end - at;
            let covered: u32 = if (plan.tile as u64) <= left { plan.tile } else { left as u32 };
            let length: u32 = covered + 2 * plan.fade_width;
            let mut piece = frame.crop(strip_of(&plan, plan.tile_origin, length));
            fade_out(&mut piece, plan.fade_width, 0, plan.direction);
            fade_tail(&mut piece, length, plan.fade_width, plan.direction);
            place(canvas, &piece, &plan, offset, at);
            at = at + plan.tile as u64;
        }
    }
}

/// Turns the frame image to the photo's orientation, scales it to the photo
/// and draws it. Fails, and leaves the canvas alone, exactly when the scaled
/// frame would exceed the memory limits.
pub fn compose_frame(
    canvas: &mut RasterImage,
    asset: &RasterImage,
    fit: Size,
    portrait: bool,
    offset: Point,
) -> (out: Result<(), RenderError>)
    requires
        old(canvas).wf(),
        asset.wf(),
    ensures
        final(canvas).wf(),
        final(canvas)@.width == old(canvas)@.width,
        final(canvas)@.height == old(canvas)@.height,
        out is Ok <==> frame_fits(asset@, fit, portrait),
        out is Ok ==> final(canvas)@ == with_frame(old(canvas)@, asset@, fit, portrait, offset),
        out is Err ==> final(canvas)@ == old(canvas)@,
{
    let turned = if portrait {
        asset.rotate(Rotation::Rotate90)
    } else {
        asset.copy()
    };
    let width: u64 = turned.width() as u64;
    let height: u64 = turned.height() as u64;
    if width == 0 || height == 0 {
        return Ok(());
    }
    assert(height * fit.width <= 0xffff_ffff * 0xffff_ffff && width * fit.height <= 0xffff_ffff
        * 0xffff_ffff && 0 <= height * fit.width && 0 <= width * fit.height) by (nonlinear_arith)
        requires
            0 <= width <= 0xffff_ffff,
            0 <= height <= 0xffff_ffff,
            0 <= fit.width <= 0xffff_ffff,
            0 <= fit.height <= 0xffff_ffff,
    ;
    let (new_width, new_height): (u64, u64) = if portrait {
        (fit.width as u64, height * (fit.width as u64) / width)
    } else {
        (width * (fit.height as u64) / height, fit.height as u64)
    };
    if new_width > 0xffff_ffff || new_height > 0xffff_ffff {
        return Err(RenderError::Limits);
    }
    match turned.resize(new_width as u32, new_height as u32, Filter::Triangle) {
        None => Err(RenderError::Limits),
        Some(frame) => {
            draw_frame(canvas, &frame, fit, portrait, offset);
            Ok(())
        },
    }
}

} // verus!
