//! Plain value types: sizes, points, rotations and the optional adjustments.

use vstd::prelude::*;

verus! {

/// A width and a height, in pixels.
#[derive(Clone, Copy, Debug, PartialEq, Eq, Structural)]
pub struct Size {
    pub width: u32,
    pub height: u32,
}

/// A position, in pixels from the top-left corner.
#[derive(Clone, Copy, Debug, PartialEq, Eq, Structural)]
pub struct Point {
    pub x: u32,
    pub y: u32,
}

/// An axis-aligned rectangle: its top-left corner and its extent.
#[derive(Clone, Copy, Debug, PartialEq, Eq, Structural)]
pub struct Rect {
    pub x: u32,
    pub y: u32,
    pub width: u32,
    pub height: u32,
}

/// A lossless clockwise rotation by a multiple of a quarter turn.
#[derive(Clone, Copy, Debug, PartialEq, Eq, Structural)]
pub enum Rotation {
    Rotate0,
    Rotate90,
    Rotate180,
    Rotate270,
}

/// Overrides for the canvas size; a missing side is taken from the photo.
#[derive(Clone, Copy, Debug, PartialEq, Eq, Structural)]
pub struct OutputSize {
    pub width: Option<u32>,
    pub height: Option<u32>,
}

/// How much to cut from each side of the photo, in thousandths of the
/// longer canvas side. A missing side cuts nothing.
#[derive(Clone, Copy, Debug, PartialEq, Eq, Structural)]
pub struct CropSpec {
    pub top: Option<u32>,
    pub right: Option<u32>,
    pub bottom: Option<u32>,
    pub left: Option<u32>,
}

/// The thickness of the mat on each side of the photo, in thousandths of the
/// longer canvas side.
#[derive(Clone, Copy, Debug, PartialEq, Eq, Structural)]
pub struct BorderWidthSpec {
    pub top: u32,
    pub right: u32,
    pub bottom: u32,
    pub left: u32,
}

/// Why a rendering was not made.
#[derive(Clone, Copy, Debug, PartialEq, Eq, Structural)]
pub enum RenderError {
    /// An image that the rendering needs would not fit into memory.
    Limits,
}

/// `length` multiplied by `numer / denom` clamped into `[0, 1]`, rounded down.
pub open spec fn scaled_by(length: int, numer: int, denom: int) -> int {
    if numer <= denom {
        length * numer / denom
    } else {
        length
    }
}

/// A shrink factor given as a fraction. Values above one count as one.
#[derive(Clone, Copy, Debug)]
pub struct ScaleFactor {
    numer: u32,
    denom: u32,
}

impl ScaleFactor {
    /// The numerator of the fraction.
    pub closed spec fn numer(self) -> nat {
        self.numer as nat
    }

    /// The denominator of the fraction.
    pub closed spec fn denom(self) -> nat {
        self.denom as nat
    }

    /// The denominator is positive.
    #[verifier::type_invariant]
    pub open spec fn wf(self) -> bool {
        self.denom() > 0
    }

    /// `length` multiplied by the clamped factor, rounded down.
    pub open spec fn apply(self, length: int) -> int {
        scaled_by(length, self.numer() as int, self.denom() as int)
    }

    /// Scaling never grows a length and never makes it negative.
    pub proof fn lemma_shrinks(self, length: int)
        requires
            self.wf(),
            length >= 0,
        ensures
            0 <= self.apply(length) <= length,
    {
        let n = self.numer() as int;
        let d = self.denom() as int;
        if n <= d {
            assert(0 <= length * n / d <= length) by (nonlinear_arith)
                requires
                    0 <= n <= d,
                    d > 0,
                    length >= 0,
            ;
        }
    }

    /// A factor of one half halves every length, rounding down.
    pub proof fn lemma_half_halves(self, length: int)
        requires
            self.wf(),
            2 * self.numer() == self.denom(),
            length >= 0,
        ensures
            self.apply(length) == length / 2,
    {
        let n = self.numer() as int;
        assert(length * n / (2 * n) == length / 2) by (nonlinear_arith)
            requires
                n > 0,
                length >= 0,
        ;
    }

    /// The factor `numer / denom`; `None` exactly when `denom` is zero.
    pub fn new(numer: u32, denom: u32) -> (out: Option<ScaleFactor>)
        ensures
            out is Some <==> denom > 0,
            out matches Some(f) ==> f.wf() && f.numer() == numer && f.denom() == denom,
    {
        if denom == 0 {
            None
        } else {
            Some(ScaleFactor { numer, denom })
        }
    }

    /// The numerator of the fraction.
    pub fn numerator(&self) -> (out: u32)
        ensures
            out == self.numer(),
    {
        self.numer
    }

    /// The denominator of the fraction, which is never zero.
    pub fn denominator(&self) -> (out: u32)
        ensures
            out == self.denom(),
            out > 0,
    {
        proof {
            use_type_invariant(self);
        }
        self.denom
    }

    /// Multiplies `length` by the factor clamped into `[0, 1]`, rounding down.
    pub fn scale(&self, length: u32) -> (out: u32)
        ensures
            out == self.apply(length as int),
            out <= length,
    {
        proof {
            use_type_invariant(self);
        }
        if self.numer > self.denom {
            return length;
        }
        let n: u64 = self.numer as u64;
        let d: u64 = self.denom as u64;
        proof {
            assert(0 <= length * n <= length * d && length * d <= 0xffff_ffff * 0xffff_ffff)
                by (nonlinear_arith)
                requires
                    0 <= n <= d <= 0xffff_ffff,
                    0 <= length <= 0xffff_ffff,
            ;
            assert(0 <= (length * n) / (d as int) <= length) by (nonlinear_arith)
                requires
                    0 <= length * n <= length * d,
                    d > 0,
            ;
        }
        let scaled: u64 = (length as u64) * n / d;
        scaled as u32
    }
}

} // verus!
