//! The arithmetic of the transformations: target dimensions of a resize
//! and the anchor of a watermark.

use crate::error::{ErrorKind, ServiceError, ServiceErrorView};
use crate::text::text_eq;
use vstd::prelude::*;

verus! {

/// The text of the error for a resize that names neither dimension.
pub open spec fn no_dimension_message() -> Seq<char> {
    "At least one of width or height must be specified"@
}

/// `n / d` rounded to the nearest integer, halves upwards.
pub open spec fn round_div(n: int, d: int) -> int
    recommends
        n >= 0,
        d > 0,
{
    (n + d / 2) / d
}

/// One extent scaled by the ratio `num / den` and rounded, held within
/// `u32`. A ratio over zero is unbounded: it scales nothing to nothing and
/// anything else to the largest value.
pub open spec fn scale_dimension(extent: u32, num: u32, den: u32) -> u32 {
    if den == 0 {
        if extent == 0 || num == 0 {
            0
        } else {
            u32::MAX
        }
    } else if round_div(extent * num, den as int) > u32::MAX {
        u32::MAX
    } else {
        round_div(extent * num, den as int) as u32
    }
}

/// Whether, of the two ratios `width / orig_width` and
/// `height / orig_height`, the first is the smaller or they are equal.
pub open spec fn width_binds(orig_width: u32, orig_height: u32, width: u32, height: u32) -> bool {
    width * orig_height <= height * orig_width
}

/// The dimensions that a resize produces, or `None` where the request
/// names neither a width nor a height.
///
/// With both given and the aspect not kept, the result is exactly what
/// was asked. With one given, the other follows from the source's aspect
/// ratio. With both given and the aspect kept, the smaller of the two
/// ratios scales both axes, so the result fits within the box asked for.
pub open spec fn resized_dimensions(
    orig_width: u32,
    orig_height: u32,
    width: Option<u32>,
    height: Option<u32>,
    maintain_aspect: bool,
) -> Option<(u32, u32)> {
    match (width, height) {
        (None, None) => None,
        (Some(w), None) => Some((w, scale_dimension(orig_height, w, orig_width))),
        (None, Some(h)) => Some((scale_dimension(orig_width, h, orig_height), h)),
        (Some(w), Some(h)) => if !maintain_aspect {
            Some((w, h))
        } else if width_binds(orig_width, orig_height, w, h) {
            Some(
                (
                    scale_dimension(orig_width, w, orig_width),
                    scale_dimension(orig_height, w, orig_width),
                ),
            )
        } else {
            Some(
                (
                    scale_dimension(orig_width, h, orig_height),
                    scale_dimension(orig_height, h, orig_height),
                ),
            )
        },
    }
}

/// Rounding to nearest is the floor, plus one where the remainder is at
/// least half the divisor.
pub proof fn lemma_round_div(n: int, d: int)
    requires
        n >= 0,
        d > 0,
    ensures
        round_div(n, d) == n / d + if 2 * (n % d) >= d { 1int } else { 0int },
{
    let q = n / d;
    let r = n % d;
    assert(n == d * q + r && 0 <= r < d) by (nonlinear_arith)
        requires
            d > 0,
            q == n / d,
            r == n % d,
    ;
    let h = d / 2;
    if 2 * r >= d {
        assert((n + h) / d == q + 1) by (nonlinear_arith)
            requires
                n == d * q + r,
                0 <= r < d,
                r + h >= d,
                0 <= h < d,
        ;
    } else {
        assert((n + h) / d == q) by (nonlinear_arith)
            requires
                n == d * q + r,
                0 <= r,
                r + h < d,
                0 <= h,
                d > 0,
        ;
    }
}

/// The rounded quotient is the integer nearest to the true quotient, the
/// upper one of two that are equally near: it lies above `n / d` by at
/// most one half and below it by less than one half.
pub proof fn lemma_round_div_is_nearest(n: int, d: int)
    requires
        n >= 0,
        d > 0,
    ensures
        2 * (round_div(n, d) * d - n) <= d,
        2 * (n - round_div(n, d) * d) < d,
{
    lemma_round_div(n, d);
    let q = n / d;
    let r = n % d;
    assert(n == d * q + r && 0 <= r < d) by (nonlinear_arith)
        requires
            d > 0,
            q == n / d,
            r == n % d,
    ;
    if 2 * r >= d {
        assert((q + 1) * d - n == d - r) by (nonlinear_arith)
            requires
                n == d * q + r,
        ;
    } else {
        assert(n - q * d == r) by (nonlinear_arith)
            requires
                n == d * q + r,
        ;
    }
}

/// Scales one extent by `num / den`; see [`scale_dimension`].
pub fn scale(extent: u32, num: u32, den: u32) -> (r: u32)
    ensures
        r == scale_dimension(extent, num, den),
{
    if den == 0 {
        if extent == 0 || num == 0 {
            return 0;
        }
        return u32::MAX;
    }
    assert(extent * num <= 0xffff_ffff * 0xffff_ffff) by (nonlinear_arith)
        requires
            0 <= extent <= 0xffff_ffff,
            0 <= num <= 0xffff_ffff,
    ;
    let n: u64 = (extent as u64) * (num as u64);
    let d: u64 = den as u64;
    let q: u64 = n / d;
    let rem: u64 = n % d;
    proof {
        lemma_round_div(n as int, d as int);
        assert(q <= n) by (nonlinear_arith)
            requires
                q == n / d,
                d >= 1,
                n >= 0,
        ;
    }
    let rounded: u64 = if 2 * rem >= d {
        q + 1
    } else {
        q
    };
    if rounded > 0xffff_ffff {
        u32::MAX
    } else {
        rounded as u32
    }
}

/// Computes the dimensions of a resize; see [`resized_dimensions`].
/// Fails with a parameter error exactly where neither dimension is given.
pub fn resize_dimensions(
    orig_width: u32,
    orig_height: u32,
    width: Option<u32>,
    height: Option<u32>,
    maintain_aspect: bool,
) -> (r: Result<(u32, u32), ServiceError>)
    ensures
        match resized_dimensions(orig_width, orig_height, width, height, maintain_aspect) {
            Some(d) => r matches Ok(v) && v == d,
            None => r matches Err(e) && e@ == (ServiceErrorView {
                kind: ErrorKind::Parameter,
                message: no_dimension_message(),
            }),
        },
{
    match (width, height) {
        (None, None) => Err(
            ServiceError::new(
                ErrorKind::Parameter,
                "At least one of width or height must be specified",
            ),
        ),
        (Some(w), None) => Ok((w, scale(orig_height, w, orig_width))),
        (None, Some(h)) => Ok((scale(orig_width, h, orig_height), h)),
        (Some(w), Some(h)) => {
            if !maintain_aspect {
                Ok((w, h))
            } else {
                assert(w * orig_height <= 0xffff_ffff * 0xffff_ffff) by (nonlinear_arith)
                    requires
                        0 <= w <= 0xffff_ffff,
                        0 <= orig_height <= 0xffff_ffff,
                ;
                assert(h * orig_width <= 0xffff_ffff * 0xffff_ffff) by (nonlinear_arith)
                    requires
                        0 <= h <= 0xffff_ffff,
                        0 <= orig_width <= 0xffff_ffff,
                ;
                if (w as u64) * (orig_height as u64) <= (h as u64) * (orig_width as u64) {
                    Ok((scale(orig_width, w, orig_width), scale(orig_height, w, orig_width)))
                } else {
                    Ok((scale(orig_width, h, orig_height), scale(orig_height, h, orig_height)))
                }
            }
        },
    }
}

/// Scaling an extent by a ratio over itself gives the ratio's numerator.
pub proof fn lemma_scale_by_own_extent(extent: u32, num: u32)
    requires
        extent > 0,
    ensures
        scale_dimension(extent, num, extent) == num,
{
    let e = extent as int;
    let n = num as int;
    let h = e / 2;
    assert((e * n + h) / e == n) by (nonlinear_arith)
        requires
            e > 0,
            n >= 0,
            0 <= h < e,
    ;
}

/// Scaling never grows with a ratio of at most one: an extent scaled by
/// `num / den` with `extent * num <= bound * den` stays within `bound`.
pub proof fn lemma_scale_within(extent: u32, num: u32, den: u32, bound: u32)
    requires
        den > 0,
        extent * num <= bound * den,
    ensures
        scale_dimension(extent, num, den) <= bound,
{
    let n = extent * num;
    let d = den as int;
    let b = bound as int;
    let h = d / 2;
    assert((n + h) / d <= b) by (nonlinear_arith)
        requires
            d > 0,
            0 <= n <= b * d,
            0 <= h < d,
    ;
}

/// A resize that keeps the aspect ratio fits within the box asked for,
/// and touches it on the axis whose ratio is the smaller.
pub proof fn lemma_fit_within(orig_width: u32, orig_height: u32, width: u32, height: u32)
    requires
        orig_width > 0,
        orig_height > 0,
    ensures
        resized_dimensions(orig_width, orig_height, Some(width), Some(height), true) matches Some(d)
            && d.0 <= width && d.1 <= height && (d.0 == width || d.1 == height),
{
    lemma_scale_by_own_extent(orig_width, width);
    lemma_scale_by_own_extent(orig_height, height);
    if width_binds(orig_width, orig_height, width, height) {
        assert(orig_height * width == width * orig_height) by (nonlinear_arith);
        lemma_scale_within(orig_height, width, orig_width, height);
    } else {
        assert(orig_width * height <= width * orig_height) by (nonlinear_arith)
            requires
                width * orig_height > height * orig_width,
        ;
        lemma_scale_within(orig_width, height, orig_height, width);
    }
}

/// Where a watermark's text starts, by the name of the position. The
/// offsets are fixed; on a small image the anchor lies left of or above
/// the image.
pub open spec fn anchor_of(position: Seq<char>, width: u32, height: u32) -> (int, int) {
    if position == "center"@ {
        (width / 2 - 50, height / 2 - 20)
    } else if position == "bottom-right"@ {
        (width - 100, height - 40)
    } else {
        (10, 10)
    }
}

/// Computes the anchor of a watermark; see [`anchor_of`]. Any position
/// other than `center` and `bottom-right` is the top left corner.
pub fn watermark_anchor(position: &str, width: u32, height: u32) -> (at: (i64, i64))
    ensures
        at.0 == anchor_of(position@, width, height).0,
        at.1 == anchor_of(position@, width, height).1,
{
    if text_eq(position, "center") {
        ((width / 2) as i64 - 50, (height / 2) as i64 - 20)
    } else if text_eq(position, "bottom-right") {
        (width as i64 - 100, height as i64 - 40)
    } else {
        (10, 10)
    }
}

/// `v` held within the range of `i32`.
pub open spec fn clamped_i32(v: int) -> i32 {
    if v < i32::MIN {
        i32::MIN
    } else if v > i32::MAX {
        i32::MAX
    } else {
        v as i32
    }
}

/// Holds a coordinate within the range that the drawing call takes.
pub fn clamp_i32(v: i64) -> (r: i32)
    ensures
        r == clamped_i32(v as int),
{
    if v < i32::MIN as i64 {
        i32::MIN
    } else if v > i32::MAX as i64 {
        i32::MAX
    } else {
        v as i32
    }
}

} // verus!
