//! H-tree fractal scene: the recursion-depth schedule and the recursive
//! generation of the branch segments, in milli-pixel fixed point.
//!
//! Each node draws an "H": two vertical bars joined by a horizontal bar,
//! centered at `(x, y)` and spanning `len` milli-pixels. While depth remains
//! and the branch length is at least the two-pixel floor, the node also
//! recurses into its four corner midpoints with half the length; the floor
//! gates only the recursion, never the node's own bars.

use vstd::prelude::*;

verus! {

/// Milliseconds per recursion level: the depth advances one level every 500 ms.
pub const HTREE_LEVEL_MS: u64 = 500;

/// The recursion depth never exceeds this cap.
pub const HTREE_MAX_DEPTH: u64 = 6;

/// Branch-length floor in milli-pixels (two logical pixels): a node below it
/// still draws its bars but never recurses, so the recursion cannot run into
/// ever-smaller sub-pixel geometry.
pub const HTREE_MIN_LEN_MILLI: i64 = 2000;

/// Base branch length is 0.55 of the smaller surface dimension; in
/// milli-pixels that is 550 per logical pixel.
pub const HTREE_BASE_PER_PIXEL: i64 = 550;

/// Coordinate budget for the recursion: the center of every node stays within
/// this many milli-pixels of the origin, with room for the branch span.
pub const HTREE_SPAN_LIMIT: i64 = 4_000_000_000_000;

/// A stroked line segment in milli-pixel coordinates.
#[derive(Clone, Copy, PartialEq, Eq, Structural, Debug)]
pub struct Segment {
    pub x0: i64,
    pub y0: i64,
    pub x1: i64,
    pub y1: i64,
}

/// Builds a segment from mathematical coordinates; meaningful when they fit
/// in `i64`, which the recursion's span budget guarantees.
pub open spec fn seg(x0: int, y0: int, x1: int, y1: int) -> Segment {
    Segment { x0: x0 as i64, y0: y0 as i64, x1: x1 as i64, y1: y1 as i64 }
}

/// The three bars of one "H" centered at `(x, y)` spanning `len`.
pub open spec fn h_bars(x: int, y: int, len: int) -> Seq<Segment> {
    let half = len / 2;
    seq![
        seg(x - half, y - half, x - half, y + half),
        seg(x + half, y - half, x + half, y + half),
        seg(x - half, y, x + half, y),
    ]
}

/// The full segment list of the H-tree rooted at `(x, y)` with branch length
/// `len` (milli-pixels) and the given remaining depth: the node's own bars,
/// then — only while depth remains and the branch length has not fallen below
/// the floor — the four corner subtrees in reading order.
pub open spec fn h_tree_spec(x: int, y: int, len: int, depth: nat) -> Seq<Segment>
    decreases depth,
{
    if depth == 0 || len < HTREE_MIN_LEN_MILLI {
        h_bars(x, y, len)
    } else {
        let half = len / 2;
        h_bars(x, y, len) + h_tree_spec(x - half, y - half, half, (depth - 1) as nat)
            + h_tree_spec(x - half, y + half, half, (depth - 1) as nat) + h_tree_spec(
            x + half,
            y - half,
            half,
            (depth - 1) as nat,
        ) + h_tree_spec(x + half, y + half, half, (depth - 1) as nat)
    }
}

/// Number of "H" nodes the recursion visits at the given depth, ignoring the
/// length floor: 1 at depth 0, four subtrees added per extra level.
pub open spec fn h_node_cap(depth: nat) -> nat
    decreases depth,
{
    if depth == 0 {
        1
    } else {
        1 + 4 * h_node_cap((depth - 1) as nat)
    }
}

/// Once the branch length is below the two-pixel floor the recursion halts
/// early regardless of the remaining depth: the tree is exactly the node's
/// own three bars.
pub proof fn lemma_h_tree_halts_below_floor(x: int, y: int, len: int, depth: nat)
    requires
        len < HTREE_MIN_LEN_MILLI,
    ensures
        h_tree_spec(x, y, len, depth) == h_bars(x, y, len),
{
}

/// The recursion is finite: the tree at any depth holds at most three
/// segments per node, over at most `h_node_cap(depth)` nodes.
pub proof fn lemma_h_tree_bounded(x: int, y: int, len: int, depth: nat)
    ensures
        h_tree_spec(x, y, len, depth).len() <= 3 * h_node_cap(depth),
    decreases depth,
{
    if depth == 0 || len < HTREE_MIN_LEN_MILLI {
    } else {
        let half = len / 2;
        lemma_h_tree_bounded(x - half, y - half, half, (depth - 1) as nat);
        lemma_h_tree_bounded(x - half, y + half, half, (depth - 1) as nat);
        lemma_h_tree_bounded(x + half, y - half, half, (depth - 1) as nat);
        lemma_h_tree_bounded(x + half, y + half, half, (depth - 1) as nat);
    }
}

/// The node budget grows with depth.
proof fn lemma_h_node_cap_monotonic(d1: nat, d2: nat)
    requires
        d1 <= d2,
    ensures
        h_node_cap(d1) <= h_node_cap(d2),
    decreases d2,
{
    if d1 < d2 {
        lemma_h_node_cap_monotonic(d1, (d2 - 1) as nat);
    }
}

/// At any depth the schedule can reach, the whole tree is at most 16383
/// segments: three bars over at most 5461 nodes.
pub proof fn lemma_h_tree_finite(x: int, y: int, len: int, depth: nat)
    requires
        depth <= HTREE_MAX_DEPTH,
    ensures
        h_tree_spec(x, y, len, depth).len() <= 16383,
{
    lemma_h_tree_bounded(x, y, len, depth);
    lemma_h_node_cap_monotonic(depth, HTREE_MAX_DEPTH as nat);
    reveal_with_fuel(h_node_cap, 8);
    assert(h_node_cap(HTREE_MAX_DEPTH as nat) == 5461);
}

/// The depth schedule: `clamp(floor(elapsed_ms / 500), 0, 6)`.
pub open spec fn htree_depth_spec(elapsed_ms: u64) -> u64 {
    if elapsed_ms / HTREE_LEVEL_MS < HTREE_MAX_DEPTH {
        elapsed_ms / HTREE_LEVEL_MS
    } else {
        HTREE_MAX_DEPTH
    }
}

/// Recursion depth as a step function of elapsed time: one level per 500 ms,
/// capped at 6.
pub fn htree_depth(elapsed_ms: u64) -> (depth: u64)
    ensures
        depth == htree_depth_spec(elapsed_ms),
        depth <= HTREE_MAX_DEPTH,
{
    let steps = elapsed_ms / HTREE_LEVEL_MS;
    if steps < HTREE_MAX_DEPTH {
        steps
    } else {
        HTREE_MAX_DEPTH
    }
}

/// The depth schedule is non-decreasing in elapsed time and bounded by the
/// depth cap.
pub proof fn lemma_htree_depth_monotonic(e1: u64, e2: u64)
    requires
        e1 <= e2,
    ensures
        htree_depth_spec(e1) <= htree_depth_spec(e2),
        htree_depth_spec(e2) <= HTREE_MAX_DEPTH,
{
    assert(e1 / HTREE_LEVEL_MS <= e2 / HTREE_LEVEL_MS) by (nonlinear_arith)
        requires
            e1 <= e2,
            0 < HTREE_LEVEL_MS,
    ;
}

/// Emits the H-tree rooted at `(x, y)`: exactly the segments of
/// `h_tree_spec`, appended to `out` in specification order.
pub fn h_tree_segments(x: i64, y: i64, len: i64, depth: u64, out: &mut Vec<Segment>)
    requires
        0 <= len,
        -HTREE_SPAN_LIMIT <= x - len,
        x + len <= HTREE_SPAN_LIMIT,
        -HTREE_SPAN_LIMIT <= y - len,
        y + len <= HTREE_SPAN_LIMIT,
    ensures
        final(out)@ == old(out)@ + h_tree_spec(x as int, y as int, len as int, depth as nat),
    decreases depth,
{
    let half = ((len as u64) / 2) as i64;
    let x0 = x - half;
    let x1 = x + half;
    let y0 = y - half;
    let y1 = y + half;
    out.push(Segment { x0: x0, y0: y0, x1: x0, y1: y1 });
    out.push(Segment { x0: x1, y0: y0, x1: x1, y1: y1 });
    out.push(Segment { x0: x0, y0: y, x1: x1, y1: y });
    assert(out@ =~= old(out)@ + h_bars(x as int, y as int, len as int));
    if depth == 0 || len < HTREE_MIN_LEN_MILLI {
        return ;
    }
    h_tree_segments(x0, y0, half, depth - 1, out);
    h_tree_segments(x0, y1, half, depth - 1, out);
    h_tree_segments(x1, y0, half, depth - 1, out);
    h_tree_segments(x1, y1, half, depth - 1, out);
    assert(out@ =~= old(out)@ + h_tree_spec(x as int, y as int, len as int, depth as nat));
}

/// What the H-tree scene draws: the tree rooted at the surface center
/// (milli-pixels), base branch length 0.55 of the smaller dimension, depth
/// following the elapsed-time schedule.
pub open spec fn h_tree_scene_spec(width: u64, height: u64, elapsed_ms: u64) -> Seq<Segment> {
    let min_dim = if width <= height {
        width
    } else {
        height
    };
    h_tree_spec(
        500 * width as int,
        500 * height as int,
        HTREE_BASE_PER_PIXEL * min_dim as int,
        htree_depth_spec(elapsed_ms) as nat,
    )
}

/// The H-tree scene: base branch length is 0.55 of the smaller surface
/// dimension, depth follows the elapsed-time schedule, and the tree is rooted
/// at the surface center. Dimensions are logical pixels; output coordinates
/// are milli-pixels.
pub fn h_tree_scene(width: u64, height: u64, elapsed_ms: u64) -> (segs: Vec<Segment>)
    requires
        width <= 1_000_000,
        height <= 1_000_000,
    ensures
        segs@ == h_tree_scene_spec(width, height, elapsed_ms),
{
    let depth = htree_depth(elapsed_ms);
    let min_dim = if width <= height {
        width
    } else {
        height
    };
    let base = HTREE_BASE_PER_PIXEL * (min_dim as i64);
    let cx = 500 * (width as i64);
    let cy = 500 * (height as i64);
    let mut segs: Vec<Segment> = Vec::new();
    h_tree_segments(cx, cy, base, depth, &mut segs);
    assert(segs@ =~= h_tree_scene_spec(width, height, elapsed_ms));
    segs
}

} // verus!
