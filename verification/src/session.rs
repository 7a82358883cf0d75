//! The interactive session: active scene mode, animation clock anchor, pause
//! flag, viewport state (pan and zoom) and drag lifecycle, together with the
//! per-event transition functions and the per-frame dispatch.
//!
//! Zoom is held in micro units (1_000_000 is a factor of one) and is always
//! clamped to `[ZOOM_MIN, ZOOM_MAX]`, the fixed-point image of `[0.2, 20.0]`.
//! Pan and pointer positions are in whole device pixels.

use vstd::prelude::*;

verus! {

/// Fixed-point scale of zoom values: this many micro units are a factor 1.0.
pub const ZOOM_UNIT: u64 = 1_000_000;

/// Smallest admissible zoom, 0.2 in micro units.
pub const ZOOM_MIN: u64 = 200_000;

/// Largest admissible zoom, 20.0 in micro units.
pub const ZOOM_MAX: u64 = 20_000_000;

/// Device pixel coordinates delivered by the host's pointer events are 32-bit
/// values; every accepted pointer position is bounded by this.
pub const POINTER_LIMIT: i64 = 2_147_483_648;

/// The active scene selector.
#[derive(Clone, Copy, PartialEq, Eq, Structural, Debug)]
pub enum Mode {
    Spiral,
    HTree,
    Mandelbrot,
}

/// What one frame does after the surface has been resized and filled with the
/// background color.
#[derive(Clone, Copy, PartialEq, Eq, Structural, Debug)]
pub enum FrameAction {
    /// Paused: the frame leaves only the cleared background.
    Clear,
    /// Spiral or H-tree: the scene is drawn under the viewport transform
    /// derived from pan and zoom.
    Transformed { mode: Mode, elapsed_ms: u64, pan_x: i64, pan_y: i64, zoom_micro: u64 },
    /// Mandelbrot: the scene maps pan and zoom to its complex-plane window
    /// itself, so it receives them untransformed.
    MandelbrotWindow { elapsed_ms: u64, pan_x: i64, pan_y: i64, zoom_micro: u64 },
}

/// Saturating signed addition on the mathematical integers, pinned to the
/// `i64` range.
pub open spec fn sat_add(a: int, b: int) -> int {
    if a + b < i64::MIN {
        i64::MIN as int
    } else if a + b > i64::MAX {
        i64::MAX as int
    } else {
        a + b
    }
}

/// Saturating `i64` addition.
pub fn sat_add_i64(a: i64, b: i64) -> (r: i64)
    ensures
        r as int == sat_add(a as int, b as int),
{
    let s: i128 = (a as i128) + (b as i128);
    if s < i64::MIN as i128 {
        i64::MIN
    } else if s > i64::MAX as i128 {
        i64::MAX
    } else {
        s as i64
    }
}

/// A raw zoom value pinned to the admissible range.
pub open spec fn clamp_zoom(z: int) -> int {
    if z < ZOOM_MIN {
        ZOOM_MIN as int
    } else if z > ZOOM_MAX {
        ZOOM_MAX as int
    } else {
        z
    }
}

/// The whole mutable state of one visualization session.
pub struct Session {
    /// Scene currently being animated.
    pub mode: Mode,
    /// Timestamp the animation clock is anchored to; unset until the first
    /// frame after a mode change or restart, which fixes it to its own time.
    pub mode_start_time: Option<u64>,
    /// While set, frames clear the surface but skip scene drawing.
    pub paused: bool,
    /// Accumulated drag offset, device pixels.
    pub pan_x: i64,
    pub pan_y: i64,
    /// Zoom factor in micro units; invariant: within `[ZOOM_MIN, ZOOM_MAX]`.
    pub zoom_micro: u64,
    /// Whether a drag is in progress (pointer captured).
    pub drag_active: bool,
    /// Last pointer position seen while dragging, device pixels.
    pub last_x: i64,
    pub last_y: i64,
}

impl Session {
    /// Session invariant: zoom stays clamped and the recorded pointer
    /// position is a host-delivered 32-bit coordinate.
    pub open spec fn wf(self) -> bool {
        &&& ZOOM_MIN <= self.zoom_micro <= ZOOM_MAX
        &&& -POINTER_LIMIT <= self.last_x <= POINTER_LIMIT
        &&& -POINTER_LIMIT <= self.last_y <= POINTER_LIMIT
    }

    /// A fresh session: spiral mode, clock not yet anchored, running, no pan,
    /// zoom 1.0, no drag.
    pub fn new() -> (s: Session)
        ensures
            s.wf(),
            s.mode == Mode::Spiral,
            s.mode_start_time is None,
            !s.paused,
            s.pan_x == 0 && s.pan_y == 0,
            s.zoom_micro == ZOOM_UNIT,
            !s.drag_active,
            s.last_x == 0 && s.last_y == 0,
    {
        Session {
            mode: Mode::Spiral,
            mode_start_time: None,
            paused: false,
            pan_x: 0,
            pan_y: 0,
            zoom_micro: ZOOM_UNIT,
            drag_active: false,
            last_x: 0,
            last_y: 0,
        }
    }

    /// Mode-select action: switch scene, restart the animation clock, resume.
    /// Entering Mandelbrot also resets pan to the origin and zoom to 1.0,
    /// whatever the prior drag or zoom history: that mode reinterprets pan
    /// and zoom as complex-plane offsets, so stale screen-pixel values would
    /// misplace the view.
    pub fn select_mode(&mut self, mode: Mode)
        requires
            old(self).wf(),
        ensures
            final(self).wf(),
            final(self).mode == mode,
            final(self).mode_start_time is None,
            !final(self).paused,
            mode == Mode::Mandelbrot ==> final(self).pan_x == 0 && final(self).pan_y == 0
                && final(self).zoom_micro == ZOOM_UNIT,
            mode != Mode::Mandelbrot ==> final(self).pan_x == old(self).pan_x
                && final(self).pan_y == old(self).pan_y
                && final(self).zoom_micro == old(self).zoom_micro,
            final(self).drag_active == old(self).drag_active,
            final(self).last_x == old(self).last_x,
            final(self).last_y == old(self).last_y,
    {
        self.mode = mode;
        self.mode_start_time = None;
        self.paused = false;
        if let Mode::Mandelbrot = mode {
            self.pan_x = 0;
            self.pan_y = 0;
            self.zoom_micro = ZOOM_UNIT;
        }
    }

    /// Restart action: un-anchor the animation clock and resume; the mode and
    /// the viewport are untouched. The next frame re-anchors time to zero.
    pub fn restart(&mut self)
        requires
            old(self).wf(),
        ensures
            final(self).wf(),
            *final(self) == (Session {
                mode_start_time: None::<u64>,
                paused: false,
                ..*old(self)
            }),
    {
        self.mode_start_time = None;
        self.paused = false;
    }

    /// Clear action: pause the animation. Frames keep clearing the surface
    /// but skip scene dispatch until a mode select or restart resumes.
    pub fn clear(&mut self)
        requires
            old(self).wf(),
        ensures
            final(self).wf(),
            *final(self) == (Session { paused: true, ..*old(self) }),
    {
        self.paused = true;
    }

    /// Pointer-down: begin a drag at the given device pixel position. The
    /// host keeps the pointer captured for the duration.
    pub fn pointer_down(&mut self, x: i64, y: i64)
        requires
            old(self).wf(),
            -POINTER_LIMIT <= x <= POINTER_LIMIT,
            -POINTER_LIMIT <= y <= POINTER_LIMIT,
        ensures
            final(self).wf(),
            *final(self) == (Session { drag_active: true, last_x: x, last_y: y, ..*old(self) }),
    {
        self.drag_active = true;
        self.last_x = x;
        self.last_y = y;
    }

    /// Pointer-move: while a drag is active, add the delta from the last
    /// recorded position to the pan and record the new position; otherwise a
    /// no-op. Pan accumulation saturates at the `i64` range.
    pub fn pointer_move(&mut self, x: i64, y: i64)
        requires
            old(self).wf(),
            -POINTER_LIMIT <= x <= POINTER_LIMIT,
            -POINTER_LIMIT <= y <= POINTER_LIMIT,
        ensures
            final(self).wf(),
            old(self).drag_active ==> *final(self) == (Session {
                pan_x: sat_add(old(self).pan_x as int, x - old(self).last_x) as i64,
                pan_y: sat_add(old(self).pan_y as int, y - old(self).last_y) as i64,
                last_x: x,
                last_y: y,
                ..*old(self)
            }),
            !old(self).drag_active ==> *final(self) == *old(self),
    {
        if !self.drag_active {
            return ;
        }
        let dx = x - self.last_x;
        let dy = y - self.last_y;
        self.pan_x = sat_add_i64(self.pan_x, dx);
        self.pan_y = sat_add_i64(self.pan_y, dy);
        self.last_x = x;
        self.last_y = y;
    }

    /// Pointer-up or pointer-cancel: end the drag; the host releases the
    /// pointer capture.
    pub fn pointer_up(&mut self)
        requires
            old(self).wf(),
        ensures
            final(self).wf(),
            *final(self) == (Session { drag_active: false, ..*old(self) }),
    {
        self.drag_active = false;
    }

    /// Wheel: multiply the zoom by the host-computed factor (micro units,
    /// `exp(-delta_y / 1000)`) and clamp to the admissible range.
    pub fn wheel(&mut self, factor_micro: u64)
        requires
            old(self).wf(),
        ensures
            final(self).wf(),
            *final(self) == (Session {
                zoom_micro: clamp_zoom(
                    old(self).zoom_micro * factor_micro / ZOOM_UNIT as int,
                ) as u64,
                ..*old(self)
            }),
    {
        let z: u128 = self.zoom_micro as u128;
        let f: u128 = factor_micro as u128;
        proof {
            assert(z * f <= ZOOM_MAX * 0xFFFF_FFFF_FFFF_FFFFu128) by (nonlinear_arith)
                requires
                    z <= ZOOM_MAX,
                    f <= 0xFFFF_FFFF_FFFF_FFFFu128,
            ;
        }
        let raw: u128 = z * f / (ZOOM_UNIT as u128);
        let clamped: u64 = if raw < ZOOM_MIN as u128 {
            ZOOM_MIN
        } else if raw > ZOOM_MAX as u128 {
            ZOOM_MAX
        } else {
            raw as u64
        };
        self.zoom_micro = clamped;
    }

    /// The timestamp the clock is anchored to once the frame at `time` has
    /// run: the previous anchor if one was set, else `time` itself.
    pub open spec fn anchor_spec(self, time: u64) -> u64 {
        match self.mode_start_time {
            Some(t0) => t0,
            None => time,
        }
    }

    /// What the frame at `time` does after clearing the background.
    pub open spec fn frame_action_spec(self, time: u64) -> FrameAction {
        if self.paused {
            FrameAction::Clear
        } else {
            let elapsed_ms = (time - self.anchor_spec(time)) as u64;
            match self.mode {
                Mode::Mandelbrot => FrameAction::MandelbrotWindow {
                    elapsed_ms,
                    pan_x: self.pan_x,
                    pan_y: self.pan_y,
                    zoom_micro: self.zoom_micro,
                },
                _ => FrameAction::Transformed {
                    mode: self.mode,
                    elapsed_ms,
                    pan_x: self.pan_x,
                    pan_y: self.pan_y,
                    zoom_micro: self.zoom_micro,
                },
            }
        }
    }

    /// One frame callback at monotonic timestamp `time`: anchor the clock if
    /// it is unset, compute the elapsed time, and dispatch. Spiral and H-tree
    /// are drawn through the viewport transform; Mandelbrot receives pan and
    /// zoom untransformed; a paused session only clears.
    pub fn frame(&mut self, time: u64) -> (action: FrameAction)
        requires
            old(self).wf(),
            (old(self).mode_start_time matches Some(t0) ==> t0 <= time),
        ensures
            final(self).wf(),
            *final(self) == (Session {
                mode_start_time: Some(old(self).anchor_spec(time)),
                ..*old(self)
            }),
            action == old(self).frame_action_spec(time),
            old(self).mode_start_time is None && !old(self).paused ==> action
                != FrameAction::Clear && old(self).frame_elapsed_spec(time) == 0,
    {
        let anchor: u64 = match self.mode_start_time {
            Some(t0) => t0,
            None => time,
        };
        self.mode_start_time = Some(anchor);
        let elapsed_ms = time - anchor;
        if self.paused {
            return FrameAction::Clear;
        }
        match self.mode {
            Mode::Mandelbrot => FrameAction::MandelbrotWindow {
                elapsed_ms,
                pan_x: self.pan_x,
                pan_y: self.pan_y,
                zoom_micro: self.zoom_micro,
            },
            Mode::Spiral => FrameAction::Transformed {
                mode: Mode::Spiral,
                elapsed_ms,
                pan_x: self.pan_x,
                pan_y: self.pan_y,
                zoom_micro: self.zoom_micro,
            },
            Mode::HTree => FrameAction::Transformed {
                mode: Mode::HTree,
                elapsed_ms,
                pan_x: self.pan_x,
                pan_y: self.pan_y,
                zoom_micro: self.zoom_micro,
            },
        }
    }

    /// Elapsed animation time the frame at `time` computes.
    pub open spec fn frame_elapsed_spec(self, time: u64) -> u64 {
        (time - self.anchor_spec(time)) as u64
    }
}

} // verus!
