//! Mandelbrot scene: the escape-time field over a complex-plane window
//! derived from pan and zoom, with an iteration budget that grows with
//! elapsed time.
//!
//! Complex coordinates are held in micro units (`CPLX_UNIT` per unit), so the
//! whole per-pixel iteration is exact integer arithmetic: squaring rescales
//! with one truncating division per component. A window component beyond
//! `C_BOUND` is pinned there; any point with `|c| > 2` escapes on the first
//! iteration, so pinning never changes an escape count.

use crate::fixed::{lemma_tdiv_bound, tdiv, tdiv_i64};
use crate::session::ZOOM_MAX;
use vstd::arithmetic::div_mod::lemma_fundamental_div_mod_converse;
use vstd::prelude::*;

verus! {

/// Fixed-point scale of complex coordinates: micro complex units per unit.
pub const CPLX_UNIT: i64 = 1_000_000;

/// The escape test `|z|^2 > 4` in micro units squared.
pub const ESCAPE_NORM_SQ: i64 = 4_000_000_000_000;

/// Window components are pinned to `[-3, 3]` in micro units; every pinned
/// point lies outside the escape radius, as the point it stands for does.
pub const C_BOUND: i64 = 3_000_000;

/// Iteration budget at elapsed time zero.
pub const MAX_ITER_FLOOR: u64 = 12;

/// Largest iteration budget: the budget saturates here.
pub const MAX_ITER_CAP: u64 = 160;

/// The budget grows by one iteration per this many milliseconds.
pub const ITER_GROWTH_MS: u64 = 28;

/// Zoom floor of the window mapping: 0.01 in micro units.
pub const ZOOM_FLOOR_MICRO: u64 = 10_000;

/// The window spans 3 complex units across the smaller surface dimension;
/// in micro units of coordinate per micro unit of zoom, per pixel.
pub const SCALE_NUM: u64 = 3_000_000_000_000;

/// Largest surface dimension the rasterizer accepts, pixels.
pub const MANDEL_DIM_LIMIT: u64 = 16_384;

/// The iteration budget: `min(12 + elapsed_ms / 28, 160)`.
pub open spec fn max_iter_spec(elapsed_ms: u64) -> u64 {
    if MAX_ITER_FLOOR + elapsed_ms / ITER_GROWTH_MS >= MAX_ITER_CAP {
        MAX_ITER_CAP
    } else {
        (MAX_ITER_FLOOR + elapsed_ms / ITER_GROWTH_MS) as u64
    }
}

/// Iteration budget for the frame at `elapsed_ms`: grows over time so the
/// field sharpens, bounded in `[12, 160]`.
pub fn mandel_max_iter(elapsed_ms: u64) -> (m: u64)
    ensures
        m == max_iter_spec(elapsed_ms),
        MAX_ITER_FLOOR <= m <= MAX_ITER_CAP,
{
    let grown = elapsed_ms / ITER_GROWTH_MS;
    if grown >= MAX_ITER_CAP - MAX_ITER_FLOOR {
        MAX_ITER_CAP
    } else {
        MAX_ITER_FLOOR + grown
    }
}

/// The iteration budget is non-decreasing in elapsed time and bounded in
/// `[12, 160]`.
pub proof fn lemma_max_iter_monotonic(e1: u64, e2: u64)
    requires
        e1 <= e2,
    ensures
        max_iter_spec(e1) <= max_iter_spec(e2),
        MAX_ITER_FLOOR <= max_iter_spec(e1) <= MAX_ITER_CAP,
{
    assert(e1 / ITER_GROWTH_MS <= e2 / ITER_GROWTH_MS) by (nonlinear_arith)
        requires
            e1 <= e2,
            ITER_GROWTH_MS > 0,
    ;
}

/// Real part of one iteration step `z * z + c`, micro units.
pub open spec fn step_x(zx: int, zy: int, cx: int) -> int {
    tdiv(zx * zx - zy * zy, CPLX_UNIT as int) + cx
}

/// Imaginary part of one iteration step `z * z + c`, micro units.
pub open spec fn step_y(zx: int, zy: int, cy: int) -> int {
    tdiv(2 * (zx * zy), CPLX_UNIT as int) + cy
}

/// The escape count reached from state `z` after `iter` iterations already
/// spent: iterate `z * z + c` until the squared norm leaves the escape radius
/// or the budget is exhausted, and return how many iterations were spent.
pub open spec fn escape_count(zx: int, zy: int, cx: int, cy: int, iter: u64, max_iter: u64) -> u64
    decreases max_iter - iter,
{
    if iter >= max_iter || zx * zx + zy * zy > ESCAPE_NORM_SQ {
        iter
    } else {
        escape_count(step_x(zx, zy, cx), step_y(zx, zy, cy), cx, cy, (iter + 1) as u64, max_iter)
    }
}

/// Twice a product is bounded by the sum of squares.
proof fn lemma_two_mul_bound(a: int, b: int, m: int)
    by (nonlinear_arith)
    requires
        a * a + b * b <= m,
    ensures
        -m <= 2 * (a * b) <= m,
{
}

/// Escape-time iteration for the window point `c` (micro units): the number
/// of `z * z + c` steps, from `z = 0`, until the squared norm exceeds 4 or
/// the budget `max_iter` is exhausted.
pub fn escape_iterations(cx: i64, cy: i64, max_iter: u64) -> (n: u64)
    requires
        -C_BOUND <= cx <= C_BOUND,
        -C_BOUND <= cy <= C_BOUND,
    ensures
        n == escape_count(0, 0, cx as int, cy as int, 0, max_iter),
        n <= max_iter,
{
    let mut zx: i64 = 0;
    let mut zy: i64 = 0;
    let mut zx2: i64 = 0;
    let mut zy2: i64 = 0;
    let mut iter: u64 = 0;
    while zx2 + zy2 <= ESCAPE_NORM_SQ && iter < max_iter
        invariant
            -C_BOUND <= cx <= C_BOUND,
            -C_BOUND <= cy <= C_BOUND,
            -7_000_000 <= zx <= 7_000_000,
            -7_000_000 <= zy <= 7_000_000,
            zx2 == zx * zx,
            zy2 == zy * zy,
            0 <= zx2 <= 49_000_000_000_000,
            0 <= zy2 <= 49_000_000_000_000,
            iter <= max_iter,
            escape_count(zx as int, zy as int, cx as int, cy as int, iter, max_iter)
                == escape_count(0, 0, cx as int, cy as int, 0, max_iter),
        decreases max_iter - iter,
    {
        let ghost zx0 = zx as int;
        let ghost zy0 = zy as int;
        let ghost iter0 = iter;
        proof {
            assert(-2_000_000 <= zx <= 2_000_000) by (nonlinear_arith)
                requires
                    zx * zx <= 4_000_000_000_000,
            ;
            assert(-2_000_000 <= zy <= 2_000_000) by (nonlinear_arith)
                requires
                    zy * zy <= 4_000_000_000_000,
            ;
            lemma_two_mul_bound(zx as int, zy as int, 4_000_000_000_000);
            lemma_tdiv_bound((zx2 - zy2) as int, 1_000_000, 4_000_000);
            lemma_tdiv_bound(2 * ((zx * zy) as int), 1_000_000, 4_000_000);
        }
        let diff: i64 = zx2 - zy2;
        let prod2: i64 = 2 * (zx * zy);
        let nx: i64 = tdiv_i64(diff, 1_000_000) + cx;
        let ny: i64 = tdiv_i64(prod2, 1_000_000) + cy;
        zx = nx;
        zy = ny;
        iter = iter + 1;
        proof {
            assert(zx * zx <= 49_000_000_000_000 && zx * zx >= 0) by (nonlinear_arith)
                requires
                    -7_000_000 <= zx <= 7_000_000,
            ;
            assert(zy * zy <= 49_000_000_000_000 && zy * zy >= 0) by (nonlinear_arith)
                requires
                    -7_000_000 <= zy <= 7_000_000,
            ;
            assert(zx == step_x(zx0, zy0, cx as int) && zy == step_y(zx0, zy0, cy as int));
            assert(escape_count(zx0, zy0, cx as int, cy as int, iter0, max_iter) == escape_count(
                zx as int,
                zy as int,
                cx as int,
                cy as int,
                iter,
                max_iter,
            ));
        }
        zx2 = zx * zx;
        zy2 = zy * zy;
    }
    iter
}

/// A window point outside the escape radius spends exactly one iteration:
/// the first step moves `z` from the origin onto `c` itself, which already
/// fails the norm test. This is why pinning a far component at `C_BOUND`
/// leaves the escape count unchanged: pinned and unpinned point both count 1.
pub proof fn lemma_far_point_escapes_immediately(cx: int, cy: int, max_iter: u64)
    requires
        cx * cx + cy * cy > ESCAPE_NORM_SQ,
        max_iter >= 1,
    ensures
        escape_count(0, 0, cx, cy, 0, max_iter) == 1,
{
    assert(step_x(0, 0, cx) == cx);
    assert(step_y(0, 0, cy) == cy);
    assert(escape_count(cx, cy, cx, cy, 1, max_iter) == 1);
}

/// A nonnegative channel value pinned to one byte.
pub open spec fn cap255(v: int) -> u8 {
    if v > 255 {
        255u8
    } else {
        v as u8
    }
}

/// Smooth polynomial palette of the normalized iteration fraction
/// `t = i / m`: the channels are the cubic and quartic blends
/// `9 (1-t) t^3`, `15 (1-t)^2 t^2` and `8.5 (1-t)^3 t` of one byte each,
/// written over integers with the single division last.
pub open spec fn palette_spec(i: int, m: int) -> (u8, u8, u8) {
    let m4 = m * m * m * m;
    (
        cap255(9 * (m - i) * i * i * i * 255 / m4),
        cap255(15 * (m - i) * (m - i) * i * i * 255 / m4),
        cap255(17 * (m - i) * (m - i) * (m - i) * i * 255 / (2 * m4)),
    )
}

/// Palette color of an escaped pixel that spent `iter` of `max_iter`
/// iterations.
pub fn palette_rgb(iter: u64, max_iter: u64) -> (rgb: (u8, u8, u8))
    requires
        iter < max_iter,
        max_iter <= MAX_ITER_CAP,
    ensures
        rgb == palette_spec(iter as int, max_iter as int),
{
    let i = iter;
    let m = max_iter;
    let im = m - i;
    proof {
        assert(9 * im * i <= 230_400 && 9 * im * i * i <= 36_864_000 && 9 * im * i * i * i
            <= 5_898_240_000 && 9 * im * i * i * i * 255 <= 1_504_051_200_000 && 15 * im * im
            <= 384_000 && 15 * im * im * i <= 61_440_000 && 15 * im * im * i * i <= 9_830_400_000
            && 15 * im * im * i * i * 255 <= 2_506_752_000_000 && 17 * im * im <= 435_200 && 17 * im
            * im * im <= 69_632_000 && 17 * im * im * im * i <= 11_141_120_000 && 17 * im * im * im
            * i * 255 <= 2_840_985_600_000 && m * m <= 25_600 && m * m * m <= 4_096_000 && m * m * m
            * m <= 655_360_000 && m * m * m * m >= 1) by (nonlinear_arith)
            requires
                0 <= i <= 160,
                0 <= im <= 160,
                1 <= m <= 160,
        ;
    }
    let m4 = m * m * m * m;
    let rv = 9 * im * i * i * i * 255 / m4;
    let gv = 15 * im * im * i * i * 255 / m4;
    let bv = 17 * im * im * im * i * 255 / (2 * m4);
    let r: u8 = if rv > 255 {
        255
    } else {
        rv as u8
    };
    let g: u8 = if gv > 255 {
        255
    } else {
        gv as u8
    };
    let b: u8 = if bv > 255 {
        255
    } else {
        bv as u8
    };
    (r, g, b)
}

/// Complex units per pixel, in micro units: the window spans 3 units across
/// the smaller surface dimension, shrunk by the zoom (floored at 0.01).
pub open spec fn mandel_scale_spec(width: u64, height: u64, zoom_micro: u64) -> int {
    let md = if width <= height {
        width
    } else {
        height
    };
    let mdc: u64 = if md >= 1 {
        md
    } else {
        1u64
    };
    let zf: u64 = if zoom_micro >= ZOOM_FLOOR_MICRO {
        zoom_micro
    } else {
        ZOOM_FLOOR_MICRO
    };
    (SCALE_NUM as int) / (mdc * zf)
}

/// The window mapping's scale for the given surface and zoom.
pub fn mandel_scale(width: u64, height: u64, zoom_micro: u64) -> (s: u64)
    requires
        width <= MANDEL_DIM_LIMIT,
        height <= MANDEL_DIM_LIMIT,
        zoom_micro <= ZOOM_MAX,
    ensures
        s == mandel_scale_spec(width, height, zoom_micro),
        s <= 300_000_000,
{
    let md = if width <= height {
        width
    } else {
        height
    };
    let mdc: u64 = if md >= 1 {
        md
    } else {
        1
    };
    let zf: u64 = if zoom_micro >= ZOOM_FLOOR_MICRO {
        zoom_micro
    } else {
        ZOOM_FLOOR_MICRO
    };
    proof {
        assert(10_000 <= mdc * zf <= 327_680_000_000) by (nonlinear_arith)
            requires
                1 <= mdc <= 16_384,
                10_000 <= zf <= 20_000_000,
        ;
        assert(3_000_000_000_000int / (mdc * zf) <= 300_000_000) by (nonlinear_arith)
            requires
                mdc * zf >= 10_000,
        ;
    }
    let denom = mdc * zf;
    SCALE_NUM / denom
}

/// A window component pinned to `[-C_BOUND, C_BOUND]`.
pub open spec fn sat_c(v: int) -> int {
    if v < -(C_BOUND as int) {
        -(C_BOUND as int)
    } else if v > C_BOUND {
        C_BOUND as int
    } else {
        v
    }
}

/// One axis of the window point a pixel maps to: the pixel's offset from the
/// surface center times the scale, shifted by the axis base (-0.5 on the real
/// axis, 0 on the imaginary one) and the panned-off center, then pinned.
pub open spec fn pixel_coord_spec(p: int, dim: int, scale: int, pan: int, base: int) -> int {
    sat_c(tdiv((2 * p - dim) * scale, 2) + base - pan * scale)
}

/// Maps pixel index `p` of a surface axis of extent `dim` to its window
/// coordinate, micro units.
pub fn pixel_coord(p: u64, dim: u64, scale: u64, pan: i64, base: i64) -> (c: i64)
    requires
        p < dim <= MANDEL_DIM_LIMIT,
        scale <= 300_000_000,
        -1_000_000 <= base <= 0,
    ensures
        c == pixel_coord_spec(p as int, dim as int, scale as int, pan as int, base as int),
        -C_BOUND <= c <= C_BOUND,
{
    let t: i64 = 2 * (p as i64) - (dim as i64);
    proof {
        assert(-9_830_400_000_000 <= t * scale <= 9_830_400_000_000) by (nonlinear_arith)
            requires
                -32_768 <= t <= 32_768,
                0 <= scale <= 300_000_000,
        ;
        lemma_tdiv_bound(t * (scale as int), 2, 4_915_200_000_000);
        assert(-3_000_000_000_000_000_000_000_000_000 <= (pan as int) * (scale as int)
            <= 3_000_000_000_000_000_000_000_000_000) by (nonlinear_arith)
            requires
                -9_223_372_036_854_775_808 <= pan <= 9_223_372_036_854_775_807,
                0 <= scale <= 300_000_000,
        ;
    }
    let ts: i64 = t * (scale as i64);
    let q: i64 = tdiv_i64(ts, 2);
    let ps: i128 = (pan as i128) * (scale as i128);
    let sum: i128 = (q as i128) + (base as i128) - ps;
    if sum < -(C_BOUND as i128) {
        -C_BOUND
    } else if sum > C_BOUND as i128 {
        C_BOUND
    } else {
        sum as i64
    }
}

/// The color of pixel `(px, py)` of the Mandelbrot scene: the escape count of
/// the window point the pixel maps to, rendered through the palette, or the
/// fixed dark color where the budget was exhausted without escape.
pub open spec fn mandel_pixel_spec(
    px: int,
    py: int,
    width: u64,
    height: u64,
    pan_x: i64,
    pan_y: i64,
    zoom_micro: u64,
    elapsed_ms: u64,
) -> (u8, u8, u8) {
    let scale = mandel_scale_spec(width, height, zoom_micro);
    let cx = pixel_coord_spec(px, width as int, scale, pan_x as int, -500_000);
    let cy = pixel_coord_spec(py, height as int, scale, pan_y as int, 0);
    let m = max_iter_spec(elapsed_ms);
    let it = escape_count(0, 0, cx, cy, 0, m);
    if it == m {
        (10u8, 10u8, 16u8)
    } else {
        palette_spec(it as int, m as int)
    }
}

/// Pixel `k` (in row-major order) of the RGBA buffer `s` holds the scene
/// color of pixel `(k % width, k / width)` with full alpha.
pub open spec fn pixel_quad_ok(
    s: Seq<u8>,
    k: int,
    width: u64,
    height: u64,
    pan_x: i64,
    pan_y: i64,
    zoom_micro: u64,
    elapsed_ms: u64,
) -> bool {
    let rgb = mandel_pixel_spec(
        k % (width as int),
        k / (width as int),
        width,
        height,
        pan_x,
        pan_y,
        zoom_micro,
        elapsed_ms,
    );
    &&& s[4 * k] == rgb.0
    &&& s[4 * k + 1] == rgb.1
    &&& s[4 * k + 2] == rgb.2
    &&& s[4 * k + 3] == 255
}

/// Rasterizes the Mandelbrot scene into a row-major RGBA buffer: one pass,
/// four bytes per pixel, each pixel's color fixed by `mandel_pixel_spec`. A
/// zero-sized surface yields the empty buffer.
pub fn render_mandelbrot(
    width: u64,
    height: u64,
    pan_x: i64,
    pan_y: i64,
    zoom_micro: u64,
    elapsed_ms: u64,
) -> (pixels: Vec<u8>)
    requires
        width <= MANDEL_DIM_LIMIT,
        height <= MANDEL_DIM_LIMIT,
        zoom_micro <= ZOOM_MAX,
    ensures
        pixels@.len() == 4 * width * height,
        forall|k: int|
            0 <= k < width * height ==> #[trigger] pixel_quad_ok(
                pixels@,
                k,
                width,
                height,
                pan_x,
                pan_y,
                zoom_micro,
                elapsed_ms,
            ),
{
    let scale = mandel_scale(width, height, zoom_micro);
    let m = mandel_max_iter(elapsed_ms);
    let mut pixels: Vec<u8> = Vec::new();
    let mut py: u64 = 0;
    while py < height
        invariant
            width <= MANDEL_DIM_LIMIT,
            height <= MANDEL_DIM_LIMIT,
            zoom_micro <= ZOOM_MAX,
            scale == mandel_scale_spec(width, height, zoom_micro),
            scale <= 300_000_000,
            m == max_iter_spec(elapsed_ms),
            MAX_ITER_FLOOR <= m <= MAX_ITER_CAP,
            py <= height,
            pixels@.len() == 4 * (py * width),
            forall|k: int|
                0 <= k < py * width ==> #[trigger] pixel_quad_ok(
                    pixels@,
                    k,
                    width,
                    height,
                    pan_x,
                    pan_y,
                    zoom_micro,
                    elapsed_ms,
                ),
        decreases height - py,
    {
        let mut px: u64 = 0;
        while px < width
            invariant
                width <= MANDEL_DIM_LIMIT,
                height <= MANDEL_DIM_LIMIT,
                zoom_micro <= ZOOM_MAX,
                scale == mandel_scale_spec(width, height, zoom_micro),
                scale <= 300_000_000,
                m == max_iter_spec(elapsed_ms),
                MAX_ITER_FLOOR <= m <= MAX_ITER_CAP,
                py < height,
                px <= width,
                pixels@.len() == 4 * (py * width + px),
                forall|k: int|
                    0 <= k < py * width + px ==> #[trigger] pixel_quad_ok(
                        pixels@,
                        k,
                        width,
                        height,
                        pan_x,
                        pan_y,
                        zoom_micro,
                        elapsed_ms,
                    ),
            decreases width - px,
        {
            let cxv = pixel_coord(px, width, scale, pan_x, -500_000);
            let cyv = pixel_coord(py, height, scale, pan_y, 0);
            let it = escape_iterations(cxv, cyv, m);
            let rgb: (u8, u8, u8) = if it == m {
                (10u8, 10u8, 16u8)
            } else {
                palette_rgb(it, m)
            };
            let ghost before = pixels@;
            pixels.push(rgb.0);
            pixels.push(rgb.1);
            pixels.push(rgb.2);
            pixels.push(255u8);
            proof {
                let k = py * width + px;
                lemma_fundamental_div_mod_converse(k as int, width as int, py as int, px as int);
                assert(mandel_pixel_spec(
                    px as int,
                    py as int,
                    width,
                    height,
                    pan_x,
                    pan_y,
                    zoom_micro,
                    elapsed_ms,
                ) == rgb);
                assert(pixel_quad_ok(
                    pixels@,
                    k as int,
                    width,
                    height,
                    pan_x,
                    pan_y,
                    zoom_micro,
                    elapsed_ms,
                ));
                assert forall|j: int| 0 <= j < py * width + px + 1 implies #[trigger] pixel_quad_ok(
                    pixels@,
                    j,
                    width,
                    height,
                    pan_x,
                    pan_y,
                    zoom_micro,
                    elapsed_ms,
                ) by {
                    if j < py * width + px {
                        assert(pixel_quad_ok(
                            before,
                            j,
                            width,
                            height,
                            pan_x,
                            pan_y,
                            zoom_micro,
                            elapsed_ms,
                        ));
                        assert(pixels@[4 * j] == before[4 * j]);
                        assert(pixels@[4 * j + 1] == before[4 * j + 1]);
                        assert(pixels@[4 * j + 2] == before[4 * j + 2]);
                        assert(pixels@[4 * j + 3] == before[4 * j + 3]);
                    }
                }
            }
            px = px + 1;
        }
        proof {
            assert((py + 1) * width == py * width + width) by (nonlinear_arith);
        }
        py = py + 1;
    }
    proof {
        assert(height * width == width * height) by (nonlinear_arith);
        assert(4 * (height * width) == 4 * width * height) by (nonlinear_arith);
    }
    pixels
}

} // verus!
