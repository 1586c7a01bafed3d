//! The adjustments a caller can ask for.

use crate::types::{BorderWidthSpec, CropSpec, OutputSize, Rotation, ScaleFactor};
use vstd::prelude::*;

verus! {

/// Everything that steers one rendering.
#[derive(Clone, Copy, Debug)]
pub struct BorderOptions {
    /// Overrides for the canvas size.
    pub output_size: Option<OutputSize>,
    /// Draw on a grey canvas and highlight its centred square.
    pub preview: bool,
    /// Turn the photo before anything else.
    pub rotate_angle: Option<Rotation>,
    /// Cut the turned photo.
    pub crop: Option<CropSpec>,
    /// Draw a black mat around the photo.
    pub border_width: Option<BorderWidthSpec>,
    /// Shrink the fitted photo.
    pub scale_factor: Option<ScaleFactor>,
}

impl BorderOptions {
    /// The options that ask for nothing.
    pub open spec fn plain() -> BorderOptions {
        BorderOptions {
            output_size: None,
            preview: false,
            rotate_angle: None,
            crop: None,
            border_width: None,
            scale_factor: None,
        }
    }

    /// No adjustment at all: the canvas has the photo's size.
    pub fn new() -> (out: BorderOptions)
        ensures
            out == BorderOptions::plain(),
    {
        BorderOptions {
            output_size: None,
            preview: false,
            rotate_angle: None,
            crop: None,
            border_width: None,
            scale_factor: None,
        }
    }
}

impl Default for BorderOptions {
    fn default() -> (out: BorderOptions)
        ensures
            out == BorderOptions::plain(),
    {
        BorderOptions::new()
    }
}

} // verus!
