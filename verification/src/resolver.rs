//! Bounding-box size resolution: given the original dimensions of an image
//! and a requested box, compute the output dimensions. The policy is
//! "fit inside the box, preserve the aspect ratio, downscale only": a box
//! dimension never forces an upscale, the more constraining axis drives the
//! scale, ties between the two scales favour the width-driven branch, and the
//! derived axis is truncated toward zero.

use vstd::prelude::*;

verus! {

use vstd::arithmetic::div_mod::{lemma_div_multiples_vanish, lemma_multiply_divide_le};
use vstd::arithmetic::mul::{lemma_mul_inequality, lemma_mul_upper_bound};

/// A caller's size constraint. A present dimension bounds the output on that
/// axis and must be positive; a box with both dimensions absent asks for no
/// resize.
#[derive(Debug, Clone, Copy)]
pub struct Size {
    pub width: Option<u32>,
    pub height: Option<u32>,
}

/// The rejection returned when a present dimension of the requested box is
/// zero; it carries the offending box.
#[derive(Debug, Clone, Copy)]
pub struct InvalidSizeError {
    pub size: Size,
}

impl InvalidSizeError {
    pub fn new(size: &Size) -> (r: InvalidSizeError)
        ensures
            r.size == *size,
    {
        InvalidSizeError { size: *size }
    }
}

/// A box is invalid exactly when a present dimension is zero.
pub open spec fn spec_size_invalid(s: Size) -> bool {
    s.width == Some(0u32) || s.height == Some(0u32)
}

/// The derived dimension: the opposite original measure scaled by
/// `desired / original`, truncated toward zero.
pub open spec fn spec_ratio(desired: u32, original: u32, opposite: u32) -> int
    recommends
        1 <= original,
{
    (opposite * desired) / (original as int)
}

/// The resolver's decision table on a valid box. With both dimensions
/// present, the comparison `h * ow < w * oh` is the exact form of
/// "the height scale `h / oh` is smaller than the width scale `w / ow`":
/// height drives only when it is strictly more constraining and does not
/// upscale, so equal scales fall to the width-driven branch.
pub open spec fn spec_target_size(ow: u32, oh: u32, s: Size) -> (int, int)
    recommends
        !spec_size_invalid(s),
{
    match (s.width, s.height) {
        (None, None) => (ow as int, oh as int),
        (Some(w), Some(h)) => {
            if h > oh && w > ow {
                (ow as int, oh as int)
            } else if h * ow < w * oh && h <= oh {
                (spec_ratio(h, oh, ow), h as int)
            } else {
                (w as int, spec_ratio(w, ow, oh))
            }
        },
        (None, Some(h)) => {
            if h > oh {
                (ow as int, oh as int)
            } else {
                (spec_ratio(h, oh, ow), h as int)
            }
        },
        (Some(w), None) => {
            if w > ow {
                (ow as int, oh as int)
            } else {
                (w as int, spec_ratio(w, ow, oh))
            }
        },
    }
}

/// Whether a present dimension of the box is zero. (The dimensions are
/// unsigned, so a negative one is structurally impossible; zero is what is
/// left to reject.)
pub fn is_negative_or_zero(size: &Size) -> (r: bool)
    ensures
        r == spec_size_invalid(*size),
{
    let height_zero = match size.height {
        Some(h) => h == 0,
        None => false,
    };
    let width_zero = match size.width {
        Some(w) => w == 0,
        None => false,
    };
    height_zero || width_zero
}

/// The derived dimension `opposite * desired / original`, truncated toward
/// zero. `desired <= original` keeps the quotient within `u32`.
pub fn get_ratio(desired_measure: u32, original_measure: u32, opposite_orig_measure: u32) -> (r: u32)
    requires
        1 <= original_measure,
        desired_measure <= original_measure,
    ensures
        r == spec_ratio(desired_measure, original_measure, opposite_orig_measure),
        r <= opposite_orig_measure,
{
    proof {
        lemma_mul_upper_bound(
            opposite_orig_measure as int,
            u32::MAX as int,
            desired_measure as int,
            u32::MAX as int,
        );
    }
    let num: u64 = (opposite_orig_measure as u64) * (desired_measure as u64);
    let q: u64 = num / (original_measure as u64);
    proof {
        lemma_mul_inequality(
            desired_measure as int,
            original_measure as int,
            opposite_orig_measure as int,
        );
        lemma_multiply_divide_le(
            num as int,
            original_measure as int,
            opposite_orig_measure as int,
        );
    }
    q as u32
}

/// Resolve the output dimensions for an image of `original_width` by
/// `original_height` under the requested box: reject a zero dimension, and
/// otherwise follow the decision table of `spec_target_size`.
pub fn get_target_size(original_width: u32, original_height: u32, desired_size: &Size) -> (r: Result<
    (u32, u32),
    InvalidSizeError,
>)
    ensures
        r is Err <==> spec_size_invalid(*desired_size),
        r matches Ok(t) ==> (t.0 as int, t.1 as int) == spec_target_size(
            original_width,
            original_height,
            *desired_size,
        ),
        r matches Err(e) ==> e.size == *desired_size,
{
    let ow = original_width;
    let oh = original_height;
    if is_negative_or_zero(desired_size) {
        return Err(InvalidSizeError::new(desired_size));
    }
    match (desired_size.width, desired_size.height) {
        (None, None) => Ok((ow, oh)),
        (Some(w), Some(h)) => {
            if h > oh && w > ow {
                Ok((ow, oh))
            } else {
                proof {
                    lemma_mul_upper_bound(h as int, u32::MAX as int, ow as int, u32::MAX as int);
                    lemma_mul_upper_bound(w as int, u32::MAX as int, oh as int, u32::MAX as int);
                }
                let height_scaled: u64 = (h as u64) * (ow as u64);
                let width_scaled: u64 = (w as u64) * (oh as u64);
                if height_scaled < width_scaled && h <= oh {
                    Ok((get_ratio(h, oh, ow), h))
                } else {
                    proof {
                        assert(w <= ow) by (nonlinear_arith)
                            requires
                                1 <= w,
                                1 <= h,
                                !(h > oh && w > ow),
                                !((h as int) * (ow as int) < (w as int) * (oh as int) && h <= oh),
                        ;
                    }
                    Ok((w, get_ratio(w, ow, oh)))
                }
            }
        },
        (None, Some(h)) => {
            if h > oh {
                Ok((ow, oh))
            } else {
                Ok((get_ratio(h, oh, ow), h))
            }
        },
        (Some(w), None) => {
            if w > ow {
                Ok((ow, oh))
            } else {
                Ok((w, get_ratio(w, ow, oh)))
            }
        },
    }
}

/// A box at least as large as the original on both axes leaves the
/// dimensions unchanged, whichever branch of the decision table fires.
pub proof fn lemma_containing_box_is_identity(ow: u32, oh: u32, w: u32, h: u32)
    requires
        1 <= w,
        1 <= h,
        ow <= w,
        oh <= h,
    ensures
        spec_target_size(ow, oh, (Size { width: Some(w), height: Some(h) })) == (
            ow as int,
            oh as int,
        ),
{
    if h > oh && w > ow {
    } else if h * ow < w * oh && h <= oh {
        // Height drives, so h == oh, and the derived width collapses to ow.
        assert(h == oh);
        lemma_div_multiples_vanish(ow as int, oh as int);
        assert((ow * h) / (oh as int) == ow);
    } else {
        // Width drives; w > ow would force the height-driven branch.
        if w > ow {
            assert(h == oh);
            assert((h as int) * (ow as int) < (w as int) * (oh as int)) by (nonlinear_arith)
                requires
                    h == oh,
                    1 <= oh,
                    ow < w,
            ;
            assert(false);
        }
        assert(w == ow);
        lemma_div_multiples_vanish(oh as int, ow as int);
        assert((oh * w) / (ow as int) == oh);
    }
}

/// An absent box never changes the original dimensions and is never
/// rejected.
pub proof fn lemma_unconstrained_box_is_identity(ow: u32, oh: u32)
    ensures
        !spec_size_invalid((Size { width: None, height: None })),
        spec_target_size(ow, oh, (Size { width: None, height: None })) == (ow as int, oh as int),
{
}

/// A box with a present zero dimension is rejected, whatever the original
/// dimensions.
pub proof fn lemma_zero_dimension_rejected(s: Size)
    requires
        s.width == Some(0u32) || s.height == Some(0u32),
    ensures
        spec_size_invalid(s),
{
}

/// The rounded output ratio matches the original's: on the driving axis the
/// output is taken as given, and on the derived axis it is the exact scaled
/// value truncated toward zero, so the cross products differ by less than
/// one denominator unit.
pub open spec fn aspect_within_truncation(ow: u32, oh: u32, rw: int, rh: int) -> bool {
    ||| (rw * oh <= ow * rh && ow * rh < (rw + 1) * oh)
    ||| (rh * ow <= oh * rw && oh * rw < (rh + 1) * ow)
}

/// Downscale only, with the aspect ratio preserved to within one truncation
/// step: every resolved size fits inside the original dimensions, and
/// whenever it differs from them its cross products against the original
/// bracket an exact ratio match.
pub proof fn lemma_downscale_and_aspect(ow: u32, oh: u32, s: Size)
    requires
        !spec_size_invalid(s),
    ensures
        spec_target_size(ow, oh, s).0 <= ow,
        spec_target_size(ow, oh, s).1 <= oh,
        spec_target_size(ow, oh, s) != (ow as int, oh as int) ==> aspect_within_truncation(
            ow,
            oh,
            spec_target_size(ow, oh, s).0,
            spec_target_size(ow, oh, s).1,
        ),
{
    match (s.width, s.height) {
        (None, None) => {},
        (Some(w), Some(h)) => {
            if h > oh && w > ow {
            } else if h * ow < w * oh && h <= oh {
                lemma_height_driven_brackets(ow, oh, h);
            } else {
                assert(w <= ow) by (nonlinear_arith)
                    requires
                        1 <= w,
                        1 <= h,
                        !(h > oh && w > ow),
                        !((h as int) * (ow as int) < (w as int) * (oh as int) && h <= oh),
                ;
                lemma_width_driven_brackets(ow, oh, w);
            }
        },
        (None, Some(h)) => {
            if h > oh {
            } else {
                lemma_height_driven_brackets(ow, oh, h);
            }
        },
        (Some(w), None) => {
            if w > ow {
            } else {
                lemma_width_driven_brackets(ow, oh, w);
            }
        },
    }
}

/// When height drives, the derived width is the truncated exact scale of the
/// original width, so it never upscales and brackets the exact ratio.
proof fn lemma_height_driven_brackets(ow: u32, oh: u32, h: u32)
    requires
        1 <= h <= oh,
    ensures
        spec_ratio(h, oh, ow) <= ow,
        spec_ratio(h, oh, ow) * oh <= ow * h,
        ow * h < (spec_ratio(h, oh, ow) + 1) * oh,
{
    let rw = spec_ratio(h, oh, ow);
    lemma_mul_inequality(h as int, oh as int, ow as int);
    lemma_multiply_divide_le((ow * h) as int, oh as int, ow as int);
    assert(rw * oh <= ow * h && ow * h < (rw + 1) * oh) by (nonlinear_arith)
        requires
            1 <= oh,
            rw == (ow * h) / (oh as int),
            0 <= ow * h,
    ;
}

/// When width drives, the derived height is the truncated exact scale of the
/// original height, so it never upscales and brackets the exact ratio.
proof fn lemma_width_driven_brackets(ow: u32, oh: u32, w: u32)
    requires
        1 <= w <= ow,
    ensures
        spec_ratio(w, ow, oh) <= oh,
        spec_ratio(w, ow, oh) * ow <= oh * w,
        oh * w < (spec_ratio(w, ow, oh) + 1) * ow,
{
    let rh = spec_ratio(w, ow, oh);
    lemma_mul_inequality(w as int, ow as int, oh as int);
    lemma_multiply_divide_le((oh * w) as int, ow as int, oh as int);
    assert(rh * ow <= oh * w && oh * w < (rh + 1) * ow) by (nonlinear_arith)
        requires
            1 <= ow,
            rh == (oh * w) / (ow as int),
            0 <= oh * w,
    ;
}

} // verus!
