//! Composites a photograph onto a canvas and decorates it with a film-strip
//! border whose end caps and middle tiles fade into one another.
//!
//! A rendering runs in two phases. The geometry is worked out first, on sizes
//! alone and in exact integer arithmetic ([`layout`], [`frame::plan_frame`]);
//! then the pixels are drawn ([`transform`], [`frame`], [`img`]). Turning,
//! cutting, resampling and blending are left to the `image` crate ([`ops`]).
//! [`ImageBorders::apply`] puts the phases together.
//!
//! Every image has a mathematical model, [`img::Bitmap`], and every function
//! says what it computes as a function on models: [`rendered`] is the canvas
//! that [`ImageBorders::apply`] returns.

pub mod defaults;
pub mod frame;
pub mod img;
pub mod layout;
pub mod ops;
pub mod options;
pub mod transform;
pub mod types;
pub mod utils;

use crate::defaults::{background, background_color, black, highlight, highlight_color, mat_color};
use crate::frame::{compose_frame, frame_fits, lemma_with_frame_size, with_frame};
use crate::img::{fill_rect, filled, Bitmap, RasterImage};
use crate::layout::{layout_of, plan_layout, resolved_size};
use crate::ops::{is_storable, overlaid, storable};
use crate::options::BorderOptions;
use crate::transform::{transform, transformable, transformed};
use crate::types::RenderError;
use vstd::prelude::*;

verus! {

/// Whether a rendering stays within memory limits: the canvas can be stored,
/// and resampling the photo and the frame image is workable.
pub open spec fn renderable(photo: Bitmap, border: Bitmap, options: BorderOptions) -> bool {
    let layout = layout_of(photo.size(), options);
    &&& storable(layout.canvas.width as int, layout.canvas.height as int)
    &&& transformable(
        photo.size(),
        options.rotate_angle,
        options.crop,
        layout.canvas,
        options.scale_factor,
    )
    &&& frame_fits(border, layout.fit, layout.portrait)
}

/// The finished canvas: a flat background of the resolved size, the mat
/// where one is asked for, the transformed photo at its centring offset, the
/// frame over it, and in a preview the highlighted centre square on top.
pub open spec fn rendered(photo: Bitmap, border: Bitmap, options: BorderOptions) -> Bitmap {
    let layout = layout_of(photo.size(), options);
    let blank = Bitmap::solid(
        layout.canvas.width as nat,
        layout.canvas.height as nat,
        background(options.preview),
    );
    let matted = match layout.mat {
        Some(corners) => filled(blank, black(), corners.0, corners.1),
        None => blank,
    };
    let with_photo = overlaid(
        matted,
        transformed(
            photo,
            options.rotate_angle,
            options.crop,
            layout.canvas,
            options.scale_factor,
        ),
        layout.offset.x as int,
        layout.offset.y as int,
    );
    let with_border = with_frame(with_photo, border, layout.fit, layout.portrait, layout.offset);
    match layout.preview {
        Some(corners) => filled(with_border, highlight(), corners.0, corners.1),
        None => with_border,
    }
}

/// The finished canvas has exactly the resolved size, whatever the photo,
/// the frame image and the options.
pub proof fn lemma_rendered_size(photo: Bitmap, border: Bitmap, options: BorderOptions)
    ensures
        rendered(photo, border, options).width == resolved_size(
            photo.size(),
            options.output_size,
        ).width,
        rendered(photo, border, options).height == resolved_size(
            photo.size(),
            options.output_size,
        ).height,
{
    let layout = layout_of(photo.size(), options);
    let blank = Bitmap::solid(
        layout.canvas.width as nat,
        layout.canvas.height as nat,
        background(options.preview),
    );
    let matted = match layout.mat {
        Some(corners) => filled(blank, black(), corners.0, corners.1),
        None => blank,
    };
    let with_photo = overlaid(
        matted,
        transformed(
            photo,
            options.rotate_angle,
            options.crop,
            layout.canvas,
            options.scale_factor,
        ),
        layout.offset.x as int,
        layout.offset.y as int,
    );
    lemma_with_frame_size(with_photo, border, layout.fit, layout.portrait, layout.offset);
}

/// A photo together with the frame image that decorates it.
pub struct ImageBorders {
    img: RasterImage,
    border: RasterImage,
}

impl ImageBorders {
    /// Both images hold their pixels in full.
    pub closed spec fn wf(&self) -> bool {
        self.img.wf() && self.border.wf()
    }

    /// The photo.
    pub closed spec fn photo(&self) -> Bitmap {
        self.img@
    }

    /// The frame image, in its native landscape orientation.
    pub closed spec fn border(&self) -> Bitmap {
        self.border@
    }

    /// Takes a photo and the frame image to decorate it with.
    pub fn new(img: RasterImage, border: RasterImage) -> (out: ImageBorders)
        requires
            img.wf(),
            border.wf(),
        ensures
            out.wf(),
            out.photo() == img@,
            out.border() == border@,
    {
        ImageBorders { img, border }
    }

    /// Renders the photo onto a fresh canvas. The canvas has exactly the
    /// resolved size. Fails exactly when the rendering would exceed the
    /// memory limits; the photo and the frame image are never changed.
    pub fn apply(&mut self, options: BorderOptions) -> (out: Result<RasterImage, RenderError>)
        requires
            old(self).wf(),
        ensures
            final(self).wf(),
            final(self).photo() == old(self).photo(),
            final(self).border() == old(self).border(),
            out is Ok <==> renderable(old(self).photo(), old(self).border(), options),
            out matches Ok(canvas) ==> ({
                &&& canvas.wf()
                &&& canvas@ == rendered(old(self).photo(), old(self).border(), options)
                &&& canvas@.width == resolved_size(
                    old(self).photo().size(),
                    options.output_size,
                ).width
                &&& canvas@.height == resolved_size(
                    old(self).photo().size(),
                    options.output_size,
                ).height
            }),
    {
        let layout = plan_layout(self.img.size(), &options);
        if !is_storable(layout.canvas.width as u64, layout.canvas.height as u64) {
            return Err(RenderError::Limits);
        }
        let mut canvas = RasterImage::new(
            layout.canvas.width,
            layout.canvas.height,
            background_color(options.preview),
        );

        let placed = match transform(
            &self.img,
            options.rotate_angle,
            options.crop,
            layout.canvas,
            options.scale_factor,
        ) {
            Ok(placed) => placed,
            Err(e) => {
                return Err(e);
            },
        };

        match layout.mat {
            Some(corners) => {
                fill_rect(&mut canvas, &mat_color(), corners.0, corners.1);
            },
            None => {},
        }
        canvas.overlay(&placed.photo, layout.offset.x as i64, layout.offset.y as i64);

        match compose_frame(&mut canvas, &self.border, layout.fit, layout.portrait, layout.offset) {
            Ok(()) => {},
            Err(e) => {
                return Err(e);
            },
        }

        match layout.preview {
            Some(corners) => {
                fill_rect(&mut canvas, &highlight_color(), corners.0, corners.1);
            },
            None => {},
        }
        Ok(canvas)
    }
}

} // verus!
