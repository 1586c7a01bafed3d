//! Aspect-preserving fitting of one size into another.

use vstd::prelude::*;

verus! {

/// The largest size with the aspect ratio of `width` by `height` that fits
/// into `max_width` by `max_height`: the tighter of the two bounds is met
/// exactly, the other side is scaled by the same ratio and rounded down. An
/// empty source fits as an empty size.
pub open spec fn fit_dimensions(width: int, height: int, max_width: int, max_height: int) -> (
    int,
    int,
) {
    if width <= 0 || height <= 0 {
        (0, 0)
    } else if max_width * height <= max_height * width {
        (max_width, height * max_width / width)
    } else {
        (width * max_height / height, max_height)
    }
}

/// A fitted size never exceeds the bounds it was fitted into.
pub proof fn lemma_fit_within(width: int, height: int, max_width: int, max_height: int)
    requires
        0 <= max_width,
        0 <= max_height,
    ensures
        0 <= fit_dimensions(width, height, max_width, max_height).0 <= max_width,
        0 <= fit_dimensions(width, height, max_width, max_height).1 <= max_height,
{
    if width <= 0 || height <= 0 {
    } else if max_width * height <= max_height * width {
        assert(0 <= height * max_width / width <= max_height) by (nonlinear_arith)
            requires
                width > 0,
                height > 0,
                0 <= max_width,
                0 <= max_height,
                max_width * height <= max_height * width,
        ;
    } else {
        assert(0 <= width * max_height / height <= max_width) by (nonlinear_arith)
            requires
                width > 0,
                height > 0,
                0 <= max_width,
                0 <= max_height,
                max_width * height > max_height * width,
        ;
    }
}

/// Fits `width` by `height` into `nwidth` by `nheight`, keeping the aspect
/// ratio. Neither side of the result exceeds its bound.
pub fn resize_dimensions(width: u32, height: u32, nwidth: u32, nheight: u32) -> (out: (u32, u32))
    ensures
        (out.0 as int, out.1 as int) == fit_dimensions(
            width as int,
            height as int,
            nwidth as int,
            nheight as int,
        ),
        out.0 <= nwidth,
        out.1 <= nheight,
{
    proof {
        lemma_fit_within(width as int, height as int, nwidth as int, nheight as int);
    }
    if width == 0 || height == 0 {
        return (0, 0);
    }
    let w: u64 = width as u64;
    let h: u64 = height as u64;
    let nw: u64 = nwidth as u64;
    let nh: u64 = nheight as u64;
    proof {
        assert(nw * h <= 0xffff_ffff * 0xffff_ffff && nh * w <= 0xffff_ffff * 0xffff_ffff)
            by (nonlinear_arith)
            requires
                0 <= w <= 0xffff_ffff,
                0 <= h <= 0xffff_ffff,
                0 <= nw <= 0xffff_ffff,
                0 <= nh <= 0xffff_ffff,
        ;
        assert(nw * h == h * nw && nh * w == w * nh) by (nonlinear_arith);
    }
    if nw * h <= nh * w {
        let other: u64 = h * nw / w;
        (nwidth, other as u32)
    } else {
        let other: u64 = w * nh / h;
        (other as u32, nheight)
    }
}

} // verus!
