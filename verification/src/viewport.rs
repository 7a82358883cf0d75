//! Viewport transform and surface-size bookkeeping.
//!
//! The transform applied before drawing the spiral and H-tree scenes is the
//! composition: translate by pan, translate to the surface center, scale
//! uniformly by zoom, translate back from the center. On a point `x` (one
//! axis, milli-pixels) that composition is `zoom * (x - c) + c + pan`, with
//! pan in whole pixels and zoom in micro units; `viewport_map` states it with
//! a single truncating division, so zoom 1.0 with no pan is exactly the
//! identity.

use crate::fixed::{lemma_tdiv_bound, tdiv, tdiv_i64};
use crate::session::{ZOOM_MAX, ZOOM_UNIT};
use vstd::prelude::*;

verus! {

/// Coordinate budget of the transform: surface coordinates (milli-pixels)
/// and pan offsets (pixels) within this bound cannot overflow it.
pub const VIEW_COORD_LIMIT: i64 = 200_000_000_000;

/// Fallback logical width when the host reports no usable size.
pub const FALLBACK_WIDTH: u64 = 800;

/// Fallback logical height when the host reports no usable size.
pub const FALLBACK_HEIGHT: u64 = 600;

/// Where the composed pan/zoom transform sends the coordinate `x` (one axis,
/// milli-pixels) for a surface centered at `c`: scale by `zoom` anchored at
/// the center, then shift by the pan.
pub open spec fn viewport_map(pan: int, zoom: int, c: int, x: int) -> int {
    tdiv(zoom * (x - c), ZOOM_UNIT as int) + c + 1000 * pan
}

/// Applies the composed viewport transform to one axis of a point.
pub fn viewport_point(pan: i64, zoom_micro: u64, c_milli: i64, x_milli: i64) -> (r: i64)
    requires
        zoom_micro <= ZOOM_MAX,
        -VIEW_COORD_LIMIT <= c_milli <= VIEW_COORD_LIMIT,
        -VIEW_COORD_LIMIT <= x_milli <= VIEW_COORD_LIMIT,
        -VIEW_COORD_LIMIT <= pan <= VIEW_COORD_LIMIT,
    ensures
        r == viewport_map(pan as int, zoom_micro as int, c_milli as int, x_milli as int),
{
    let diff: i64 = x_milli - c_milli;
    proof {
        assert(-8_000_000_000_000_000_000 <= (zoom_micro as int) * (diff as int)
            <= 8_000_000_000_000_000_000) by (nonlinear_arith)
            requires
                0 <= zoom_micro <= 20_000_000,
                -400_000_000_000 <= diff <= 400_000_000_000,
        ;
        lemma_tdiv_bound((zoom_micro as int) * (diff as int), 1_000_000, 8_000_000_000_000);
    }
    let scaled: i64 = (zoom_micro as i64) * diff;
    let q: i64 = tdiv_i64(scaled, ZOOM_UNIT);
    q + c_milli + 1000 * pan
}

/// With zoom 1.0 and no pan the viewport transform is the identity on every
/// point: an unmanipulated view draws the scene exactly where it lays itself
/// out.
pub proof fn lemma_viewport_identity(c: int, x: int)
    ensures
        viewport_map(0, ZOOM_UNIT as int, c, x) == x,
{
    assert(ZOOM_UNIT * (x - c) == (x - c) * (ZOOM_UNIT as int)) by (nonlinear_arith);
    if x - c >= 0 {
        assert((x - c) * (ZOOM_UNIT as int) / (ZOOM_UNIT as int) == x - c) by (nonlinear_arith)
            requires
                ZOOM_UNIT > 0,
        ;
    } else {
        assert((c - x) * (ZOOM_UNIT as int) / (ZOOM_UNIT as int) == c - x) by (nonlinear_arith)
            requires
                ZOOM_UNIT > 0,
        ;
        assert(-(ZOOM_UNIT * (x - c)) == (c - x) * (ZOOM_UNIT as int)) by (nonlinear_arith);
    }
}

/// Logical surface size: the canvas's own client size when both sides are
/// positive, else the host window's inner size where available, else the
/// fixed fallback.
pub open spec fn logical_size_spec(
    canvas_w: i64,
    canvas_h: i64,
    window_w: Option<u64>,
    window_h: Option<u64>,
) -> (u64, u64) {
    if canvas_w > 0 && canvas_h > 0 {
        (canvas_w as u64, canvas_h as u64)
    } else {
        (
            match window_w {
                Some(w) => w,
                None => FALLBACK_WIDTH,
            },
            match window_h {
                Some(h) => h,
                None => FALLBACK_HEIGHT,
            },
        )
    }
}

/// Chooses the logical surface size from what the host reports: the canvas
/// client size when it is usable, otherwise the window size, otherwise
/// 800 by 600.
pub fn logical_size(canvas_w: i64, canvas_h: i64, window_w: Option<u64>, window_h: Option<u64>) -> (r:
    (u64, u64))
    ensures
        r == logical_size_spec(canvas_w, canvas_h, window_w, window_h),
{
    if canvas_w > 0 && canvas_h > 0 {
        (canvas_w as u64, canvas_h as u64)
    } else {
        let w = match window_w {
            Some(w) => w,
            None => FALLBACK_WIDTH,
        };
        let h = match window_h {
            Some(h) => h,
            None => FALLBACK_HEIGHT,
        };
        (w, h)
    }
}

/// Physical pixel extent of one surface axis: the logical size times the
/// device pixel ratio (milli units), pinned to the 32-bit range the surface
/// accepts.
pub open spec fn physical_extent_spec(logical: u64, dpr_milli: u64) -> u32 {
    let raw = logical * dpr_milli / 1000;
    if raw > u32::MAX {
        u32::MAX
    } else {
        raw as u32
    }
}

/// Physical pixel extent of one surface axis under the given device pixel
/// ratio, saturating at the 32-bit range.
pub fn physical_extent(logical: u64, dpr_milli: u64) -> (r: u32)
    ensures
        r == physical_extent_spec(logical, dpr_milli),
{
    let lw: u128 = logical as u128;
    let dw: u128 = dpr_milli as u128;
    proof {
        assert(lw * dw <= 0xFFFF_FFFF_FFFF_FFFFu128 * 0xFFFF_FFFF_FFFF_FFFFu128)
            by (nonlinear_arith)
            requires
                lw <= 0xFFFF_FFFF_FFFF_FFFFu128,
                dw <= 0xFFFF_FFFF_FFFF_FFFFu128,
        ;
    }
    let raw: u128 = lw * dw / 1000;
    if raw > u32::MAX as u128 {
        u32::MAX
    } else {
        raw as u32
    }
}

} // verus!
