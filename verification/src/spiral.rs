//! Spiral scene: progressive disclosure of a logarithmic spiral polyline.
//!
//! The spiral's parameter domain `[0, 80*pi]` is sampled at steps of 0.08,
//! giving a fixed polyline of `SPIRAL_STEPS` segments; the animation reveals
//! a prefix of it that grows linearly with elapsed time and is complete at
//! `SPIRAL_DURATION_MS`. Segment geometry (radius, sine and cosine) is host
//! work; the verified core fixes which prefix is drawn and each segment's hue.

use vstd::prelude::*;

verus! {

/// The reveal is complete this many milliseconds after the mode started.
pub const SPIRAL_DURATION_MS: u64 = 4200;

/// Number of polyline segments in the fully drawn spiral: the parameter
/// domain `[0, 80*pi]` divided into steps of 0.08, rounded up.
pub const SPIRAL_STEPS: u64 = 3142;

/// Hue sweeps the full color circle once over the parameter domain.
pub const HUE_DEGREES: u64 = 360;

/// How many of the `SPIRAL_STEPS` segments the frame at `elapsed_ms` draws:
/// a linear ramp that saturates at the full count once the duration has
/// passed.
pub open spec fn spiral_steps_spec(elapsed_ms: u64) -> u64 {
    if elapsed_ms >= SPIRAL_DURATION_MS {
        SPIRAL_STEPS
    } else {
        (SPIRAL_STEPS * elapsed_ms / (SPIRAL_DURATION_MS as int)) as u64
    }
}

/// Length of the polyline prefix drawn at `elapsed_ms`. Beyond the duration
/// the whole spiral is drawn, so later frames redraw the identical shape.
pub fn spiral_steps_drawn(elapsed_ms: u64) -> (steps: u64)
    ensures
        steps == spiral_steps_spec(elapsed_ms),
        steps <= SPIRAL_STEPS,
        elapsed_ms >= SPIRAL_DURATION_MS ==> steps == SPIRAL_STEPS,
{
    if elapsed_ms >= SPIRAL_DURATION_MS {
        SPIRAL_STEPS
    } else {
        let steps = SPIRAL_STEPS * elapsed_ms / SPIRAL_DURATION_MS;
        proof {
            assert(SPIRAL_STEPS * elapsed_ms / (SPIRAL_DURATION_MS as int) < SPIRAL_STEPS)
                by (nonlinear_arith)
                requires
                    elapsed_ms < SPIRAL_DURATION_MS,
                    SPIRAL_STEPS > 0,
                    SPIRAL_DURATION_MS > 0,
            ;
        }
        steps
    }
}

/// The drawn prefix is non-decreasing in elapsed time: the reveal only ever
/// grows, and it is idempotent once complete.
pub proof fn lemma_spiral_steps_monotonic(e1: u64, e2: u64)
    requires
        e1 <= e2,
    ensures
        spiral_steps_spec(e1) <= spiral_steps_spec(e2),
        e1 >= SPIRAL_DURATION_MS ==> spiral_steps_spec(e1) == SPIRAL_STEPS,
{
    if e1 < SPIRAL_DURATION_MS && e2 < SPIRAL_DURATION_MS {
        assert(SPIRAL_STEPS * e1 / (SPIRAL_DURATION_MS as int) <= SPIRAL_STEPS * e2 / (SPIRAL_DURATION_MS as int))
            by (nonlinear_arith)
            requires
                e1 <= e2,
                SPIRAL_STEPS >= 0,
                SPIRAL_DURATION_MS > 0,
        ;
    } else if e1 < SPIRAL_DURATION_MS {
        assert(SPIRAL_STEPS * e1 / (SPIRAL_DURATION_MS as int) <= SPIRAL_STEPS) by (nonlinear_arith)
            requires
                e1 < SPIRAL_DURATION_MS,
                SPIRAL_STEPS >= 0,
                SPIRAL_DURATION_MS > 0,
        ;
    }
}

/// Hue of polyline segment `step`, in degrees: a full rainbow sweep across
/// the parameter domain, so segment 0 is hue 0 and hues stay below 360.
pub fn spiral_hue_deg(step: u64) -> (hue: u64)
    requires
        step < SPIRAL_STEPS,
    ensures
        hue == HUE_DEGREES * step / (SPIRAL_STEPS as int),
        hue < HUE_DEGREES,
{
    let hue = HUE_DEGREES * step / SPIRAL_STEPS;
    proof {
        assert(HUE_DEGREES * step / (SPIRAL_STEPS as int) < HUE_DEGREES) by (nonlinear_arith)
            requires
                step < SPIRAL_STEPS,
                HUE_DEGREES > 0,
                SPIRAL_STEPS > 0,
        ;
    }
    hue
}

} // verus!
