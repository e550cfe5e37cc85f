//! Gradual transforms as an explicit state machine: a shape either rests or
//! interpolates between two points over a fixed number of frame ticks. Each
//! tick advances the interpolation one step and yields the current point;
//! the machine returns to rest on completion.

use vstd::prelude::*;
use crate::linear::{lerp_int, lemma_lerp_in_range, Pos2D};

verus! {

/// The state of a gradual transform: at rest, or part way from a start
/// point to an end point over a fixed duration in ticks.
#[derive(Debug, Clone, Copy, PartialEq, Eq, Structural)]
pub enum InterpState {
    Idle,
    Interpolating { start: Pos2D, end: Pos2D, elapsed: u32, duration: u32 },
}

impl InterpState {
    /// Well-formedness: an interpolation lasts at least one tick, has not
    /// run past its duration, and its duration fits the interpolation
    /// arithmetic.
    pub open spec fn wf(self) -> bool {
        match self {
            InterpState::Idle => true,
            InterpState::Interpolating { start, end, elapsed, duration } => {
                &&& 1 <= duration <= i32::MAX
                &&& elapsed < duration
            },
        }
    }

    /// Starts an interpolation from `start` to `end` over `duration` ticks.
    pub fn begin(start: Pos2D, end: Pos2D, duration: u32) -> (s: InterpState)
        requires
            1 <= duration <= i32::MAX,
        ensures
            s == (InterpState::Interpolating { start, end, elapsed: 0u32, duration }),
            s.wf(),
    {
        InterpState::Interpolating { start, end, elapsed: 0, duration }
    }

    /// Advances one frame tick. At rest nothing happens; otherwise the
    /// elapsed count grows by one and the point that fraction of the way
    /// from start to end comes back, with the machine falling back to rest
    /// on the tick that completes the interpolation.
    pub fn tick(&mut self) -> (r: Option<Pos2D>)
        requires
            old(self).wf(),
        ensures
            final(self).wf(),
            *old(self) is Idle ==> *final(self) == *old(self) && r is None,
            (*old(self) matches InterpState::Interpolating { start, end, elapsed, duration }
                ==> ({
                let e2 = elapsed + 1;
                &&& (r matches Some(p) && p.x == lerp_int(
                    start.x as int,
                    end.x as int,
                    e2 as int,
                    duration as int,
                ) && p.y == lerp_int(start.y as int, end.y as int, e2 as int, duration as int))
                &&& (e2 == duration ==> *final(self) is Idle)
                &&& (e2 < duration ==> *final(self) == (InterpState::Interpolating {
                    start,
                    end,
                    elapsed: e2 as u32,
                    duration,
                }))
            })),
    {
        match *self {
            InterpState::Idle => None,
            InterpState::Interpolating { start, end, elapsed, duration } => {
                let e2: u32 = elapsed + 1;
                proof {
                    lemma_lerp_in_range(start.x as int, end.x as int, e2 as int, duration as int);
                    lemma_lerp_in_range(start.y as int, end.y as int, e2 as int, duration as int);
                }
                let p: Pos2D = Pos2D::lerp(start, end, e2 as i32, duration as i32);
                if e2 == duration {
                    *self = InterpState::Idle;
                } else {
                    *self = InterpState::Interpolating { start, end, elapsed: e2, duration };
                }
                Some(p)
            },
        }
    }
}

} // verus!
