//! The fixed colours and proportions of a rendering.

use crate::img::Rgba;
use vstd::prelude::*;

verus! {

/// Crop and mat measures are given in this many parts of the longer canvas side.
pub const REM_PARTS: u64 = 1000;

/// An end cap takes at most `CAP_NUMER / CAP_DENOM` of the photo and of the frame.
pub const CAP_NUMER: u64 = 3;

/// See `CAP_NUMER`.
pub const CAP_DENOM: u64 = 4;

/// A fade is as wide as one part in `FADE_PARTS` of the fitted height.
pub const FADE_PARTS: u64 = 20;

/// A middle tile takes at most one part in `TILE_PARTS` of the photo and of the frame.
pub const TILE_PARTS: u64 = 2;

/// Middle tiles are cut from the frame one part in `TILE_ORIGIN_PARTS` along its length.
pub const TILE_ORIGIN_PARTS: u64 = 4;

/// The background of a finished rendering.
pub open spec fn white() -> Rgba {
    Rgba { r: 255, g: 255, b: 255, a: 255 }
}

/// The background of a preview.
pub open spec fn gray() -> Rgba {
    Rgba { r: 200, g: 200, b: 200, a: 255 }
}

/// The colour of the mat.
pub open spec fn black() -> Rgba {
    Rgba { r: 0, g: 0, b: 0, a: 255 }
}

/// The translucent red that marks the centred square in a preview.
pub open spec fn highlight() -> Rgba {
    Rgba { r: 255, g: 0, b: 0, a: 50 }
}

/// The background colour: grey for a preview, white otherwise.
pub open spec fn background(preview: bool) -> Rgba {
    if preview {
        gray()
    } else {
        white()
    }
}

/// The background colour: grey for a preview, white otherwise.
pub fn background_color(preview: bool) -> (c: Rgba)
    ensures
        c == background(preview),
{
    if preview {
        Rgba { r: 200, g: 200, b: 200, a: 255 }
    } else {
        Rgba { r: 255, g: 255, b: 255, a: 255 }
    }
}

/// The colour of the mat: opaque black.
pub fn mat_color() -> (c: Rgba)
    ensures
        c == black(),
{
    Rgba { r: 0, g: 0, b: 0, a: 255 }
}

/// The colour of the preview highlight: translucent red.
pub fn highlight_color() -> (c: Rgba)
    ensures
        c == highlight(),
{
    Rgba { r: 255, g: 0, b: 0, a: 50 }
}

} // verus!
