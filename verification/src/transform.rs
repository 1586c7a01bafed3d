//! The photo on its way to the canvas: turned, cut, fitted and resampled.

use crate::img::{Bitmap, RasterImage};
use crate::layout::{cut_size, plan_transform, rotated_size, transform_plan};
use crate::ops::{cropped, resizable, resized, rotated, Filter};
use crate::types::{CropSpec, Point, RenderError, Rotation, ScaleFactor, Size};
use vstd::prelude::*;

verus! {

/// A photo ready to be drawn.
pub struct Transformed {
    /// The photo at the size at which it is drawn.
    pub photo: RasterImage,
    /// That size.
    pub fit: Size,
    /// Whether the turned photo was at least as high as wide.
    pub portrait: bool,
    /// Where the photo's top-left corner goes on the canvas.
    pub offset: Point,
}

/// The photo turned by `rotation`, where there is one.
pub open spec fn turned(photo: Bitmap, rotation: Option<Rotation>) -> Bitmap {
    match rotation {
        Some(r) => rotated(photo, r),
        None => photo,
    }
}

/// The photo as it is drawn: turned, cut, and resampled to its fitted size
/// with the Lanczos filter.
pub open spec fn transformed(
    photo: Bitmap,
    rotation: Option<Rotation>,
    crop: Option<CropSpec>,
    canvas: Size,
    scale: Option<ScaleFactor>,
) -> Bitmap {
    let plan = transform_plan(photo.size(), rotation, crop, canvas, scale);
    let whole = turned(photo, rotation);
    let cut = match plan.crop {
        Some(r) => cropped(whole, r),
        None => whole,
    };
    resized(cut, plan.fit.width as nat, plan.fit.height as nat, Filter::Lanczos3)
}

/// Whether resampling the cut photo to its fitted size stays within memory
/// limits.
pub open spec fn transformable(
    photo: Size,
    rotation: Option<Rotation>,
    crop: Option<CropSpec>,
    canvas: Size,
    scale: Option<ScaleFactor>,
) -> bool {
    let plan = transform_plan(photo, rotation, crop, canvas, scale);
    resizable(
        cut_size(rotated_size(photo, rotation), plan.crop).width as int,
        plan.fit.width as int,
        plan.fit.height as int,
    )
}

/// Turns, cuts, fits and resamples the photo for a canvas of the given size,
/// and says where it goes. Fails exactly when resampling would exceed the
/// memory limits.
pub fn transform(
    photo: &RasterImage,
    rotation: Option<Rotation>,
    crop: Option<CropSpec>,
    canvas: Size,
    scale: Option<ScaleFactor>,
) -> (out: Result<Transformed, RenderError>)
    requires
        photo.wf(),
    ensures
        out is Ok <==> transformable(photo@.size(), rotation, crop, canvas, scale),
        out matches Ok(t) ==> ({
            let plan = transform_plan(photo@.size(), rotation, crop, canvas, scale);
            &&& t.photo.wf()
            &&& t.photo@ == transformed(photo@, rotation, crop, canvas, scale)
            &&& t.photo@.width == t.fit.width
            &&& t.photo@.height == t.fit.height
            &&& t.fit == plan.fit
            &&& t.portrait == plan.portrait
            &&& t.offset == plan.offset
            &&& t.fit.width <= canvas.width
            &&& t.fit.height <= canvas.height
        }),
{
    let plan = plan_transform(
        photo.size(),
        rotation,
        crop,
        canvas,
        scale,
    );
    let whole = match rotation {
        Some(r) => photo.rotate(r),
        None => photo.copy(),
    };
    let cut = match plan.crop {
        Some(r) => whole.crop(r),
        None => whole,
    };
    match cut.resize(plan.fit.width, plan.fit.height, Filter::Lanczos3) {
        Some(sized) => Ok(
            Transformed {
                photo: sized,
                fit: plan.fit,
                portrait: plan.portrait,
                offset: plan.offset,
            },
        ),
        None => Err(RenderError::Limits),
    }
}

} // verus!
