//! Frame pacing and the fixed-step update cadence.
//!
//! All times are microseconds read from the host's monotonic clock. The loop
//! driver measures; the functions here decide, so the decisions are verified:
//! how long to sleep at the end of a frame, and whether the coarse fixed-step
//! update is due.

use vstd::prelude::*;

verus! {

/// Target duration of one frame in microseconds (about 60 frames per second).
pub const FRAME_TARGET_MICROS: u64 = 16666;

/// Interval of the fixed-step update in microseconds (about 100 ms).
pub const FIXED_INTERVAL_MICROS: u64 = 100000;

/// The per-frame timing decision: whether the fixed-step update fires this
/// frame, the reference instant to carry into the next frame, and the delta
/// handed to the variable update.
///
/// `update_delta_micros` is deliberately the elapsed time since the fixed-step
/// reference, not since the previous frame: the variable update shares the
/// fixed-step accumulator. This conflation is part of the framework's
/// observable behaviour and is kept as such.
pub struct FrameTick {
    pub fire_fixed: bool,
    pub new_reference_micros: u64,
    pub update_delta_micros: u64,
}

/// What `frame_tick` decides, as a function of the reference instant and the
/// current instant.
pub open spec fn spec_frame_tick(reference_micros: u64, now_micros: u64) -> FrameTick {
    let elapsed = now_micros - reference_micros;
    FrameTick {
        fire_fixed: elapsed > FIXED_INTERVAL_MICROS,
        new_reference_micros: if elapsed > FIXED_INTERVAL_MICROS {
            now_micros
        } else {
            reference_micros
        },
        update_delta_micros: (elapsed) as u64,
    }
}

/// Decide the fixed-step update for one frame.
///
/// The fixed-step update fires exactly when strictly more than
/// `FIXED_INTERVAL_MICROS` has elapsed since the reference instant. On firing
/// the reference resets to `now_micros` — elapsed time beyond the interval is
/// discarded, never accumulated, so a stalled frame yields one fixed update,
/// not a burst of catch-up calls.
pub fn frame_tick(reference_micros: u64, now_micros: u64) -> (t: FrameTick)
    requires
        reference_micros <= now_micros,
    ensures
        t == spec_frame_tick(reference_micros, now_micros),
        t.update_delta_micros == now_micros - reference_micros,
        t.fire_fixed <==> now_micros - reference_micros > FIXED_INTERVAL_MICROS,
        t.new_reference_micros == if t.fire_fixed {
            now_micros
        } else {
            reference_micros
        },
{
    let elapsed: u64 = now_micros - reference_micros;
    let fire: bool = elapsed > FIXED_INTERVAL_MICROS;
    FrameTick {
        fire_fixed: fire,
        new_reference_micros: if fire {
            now_micros
        } else {
            reference_micros
        },
        update_delta_micros: elapsed,
    }
}

/// How long to sleep at the end of a frame whose work took
/// `frame_elapsed_micros`: the remainder of the frame target, and nothing at
/// all once the target is already spent. The result is never negative by
/// construction, and a fast frame is held back by exactly the remainder.
pub fn pace_sleep_micros(frame_elapsed_micros: u64) -> (r: u64)
    ensures
        frame_elapsed_micros < FRAME_TARGET_MICROS ==> r == FRAME_TARGET_MICROS
            - frame_elapsed_micros,
        frame_elapsed_micros >= FRAME_TARGET_MICROS ==> r == 0,
{
    if frame_elapsed_micros < FRAME_TARGET_MICROS {
        FRAME_TARGET_MICROS - frame_elapsed_micros
    } else {
        0
    }
}

/// Fixed updates are spaced by more than the fixed interval: when the frame at
/// `t1` fires the fixed-step update (from reference `r`), the reference
/// becomes `t1`, and a later frame at `t2` can fire again only after strictly
/// more than `FIXED_INTERVAL_MICROS` has passed since `t1`.
pub proof fn lemma_fixed_update_spacing(r: u64, t1: u64, t2: u64)
    requires
        r <= t1 <= t2,
        spec_frame_tick(r, t1).fire_fixed,
        spec_frame_tick(spec_frame_tick(r, t1).new_reference_micros, t2).fire_fixed,
    ensures
        t2 - t1 > FIXED_INTERVAL_MICROS,
{
}

} // verus!
