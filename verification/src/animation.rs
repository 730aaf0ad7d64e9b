//! The animation driver: a repeating countdown timer gates playback, and on
//! each frame the timer completes, a sprite-sheet index is selected from a
//! 4-row/4-column table keyed by the facing direction, whether the direction
//! changed or the character is idle, and the cyclic sub-index.

use vstd::prelude::*;

use crate::direction::Direction;

verus! {

/// Default animation period, in milliseconds (0.1 s).
pub const DEFAULT_PERIOD_MS: u32 = 100;

/// Number of cells in the sprite sheet: 4 rows of 4 columns.
pub const SPRITE_SHEET_CELLS: u32 = 16;

/// A repeating countdown timer with a fixed period, tracked as the time
/// elapsed since it last completed.  On completing its period it signals
/// once and rearms automatically.
#[derive(Clone, Copy, Debug, PartialEq, Eq, Structural)]
pub struct AnimationTimer {
    /// The fixed period, in milliseconds.  Always positive.
    pub period_ms: u32,
    /// Time since the last completion, in milliseconds.  Always below the
    /// period.
    pub elapsed_ms: u32,
}

impl AnimationTimer {
    /// The timer's invariant: a positive period, and strictly less than one
    /// period accumulated.
    pub open spec fn wf(self) -> bool {
        &&& self.period_ms > 0
        &&& self.elapsed_ms < self.period_ms
    }

    /// Whether advancing by `dt_ms` completes the period (possibly several
    /// times over).
    pub open spec fn spec_finishes(self, dt_ms: u32) -> bool {
        self.elapsed_ms + dt_ms >= self.period_ms
    }

    /// The timer after advancing by `dt_ms`: the accumulated time wraps
    /// modulo the period, rearming on every completion.
    pub open spec fn spec_ticked(self, dt_ms: u32) -> AnimationTimer {
        AnimationTimer {
            period_ms: self.period_ms,
            elapsed_ms: ((self.elapsed_ms + dt_ms) % (self.period_ms as int)) as u32,
        }
    }

    /// A fresh repeating timer with the given period, starting a full period
    /// away from its first completion.
    pub fn new(period_ms: u32) -> (t: AnimationTimer)
        requires
            period_ms > 0,
        ensures
            t == (AnimationTimer { period_ms, elapsed_ms: 0u32 }),
            t.wf(),
    {
        AnimationTimer { period_ms, elapsed_ms: 0 }
    }

    /// Advances the timer by `dt_ms` and reports whether it completed its
    /// period during this frame.
    pub fn tick(&mut self, dt_ms: u32) -> (finished: bool)
        requires
            old(self).wf(),
        ensures
            *final(self) == old(self).spec_ticked(dt_ms),
            finished == old(self).spec_finishes(dt_ms),
            final(self).wf(),
    {
        let total: u64 = self.elapsed_ms as u64 + dt_ms as u64;
        let finished = total >= self.period_ms as u64;
        self.elapsed_ms = (total % self.period_ms as u64) as u32;
        finished
    }
}

/// The animation state: the gating timer and the current sprite-sheet index.
#[derive(Clone, Copy, Debug, PartialEq, Eq, Structural)]
pub struct AnimationState {
    /// The repeating timer that gates playback speed.
    pub timer: AnimationTimer,
    /// Current index into the 16-cell sprite sheet.
    pub frame_index: u32,
}

/// The sprite index selected on a timer-complete frame.
///
/// `sampled` is this frame's sampled direction and `prev` the facing
/// direction as it stood before this frame's movement update.  Idle frames
/// rest on the row base of the last facing; a direction change or a
/// completed four-frame cycle resets to the row base of the sampled
/// direction; otherwise the cycle advances one column.
pub open spec fn spec_next_frame(frame: u32, sampled: Option<Direction>, prev: Direction) -> u32 {
    match sampled {
        None => prev.spec_row_base(),
        Some(d) => if d != prev || frame % 4 == 3 {
            d.spec_row_base()
        } else {
            (frame + 1) as u32
        },
    }
}

/// The animation state after one frame: the timer always advances, and the
/// sprite index changes exactly on the frames the timer completes.
pub open spec fn spec_advance(
    a: AnimationState,
    dt_ms: u32,
    sampled: Option<Direction>,
    prev: Direction,
) -> AnimationState {
    AnimationState {
        timer: a.timer.spec_ticked(dt_ms),
        frame_index: if a.timer.spec_finishes(dt_ms) {
            spec_next_frame(a.frame_index, sampled, prev)
        } else {
            a.frame_index
        },
    }
}

impl AnimationState {
    /// The animation's invariant: a well-formed timer and an index that is
    /// a valid cell of the 16-cell sprite sheet.
    pub open spec fn wf(self) -> bool {
        &&& self.timer.wf()
        &&& self.frame_index < SPRITE_SHEET_CELLS
    }

    /// A fresh animation at the default period, resting on the first cell.
    pub fn new() -> (a: AnimationState)
        ensures
            a.timer.period_ms == DEFAULT_PERIOD_MS,
            a.timer.elapsed_ms == 0,
            a.frame_index == 0,
            a.wf(),
    {
        AnimationState { timer: AnimationTimer::new(DEFAULT_PERIOD_MS), frame_index: 0 }
    }

    /// Animation driver: advances the timer by the elapsed time and, only on
    /// the frame the timer completes its period, selects the next sprite
    /// index.
    ///
    /// `sampled` must be the direction sampled this frame, and
    /// `prev_direction` the character's facing as it stood *before* this
    /// frame's movement update, so that a genuine direction change is
    /// visible here even though the movement resolver has already written
    /// the new facing.
    pub fn advance(&mut self, dt_ms: u32, sampled: Option<Direction>, prev_direction: Direction)
        requires
            old(self).wf(),
        ensures
            *final(self) == spec_advance(*old(self), dt_ms, sampled, prev_direction),
            final(self).wf(),
    {
        let finished = self.timer.tick(dt_ms);
        if finished {
            self.frame_index = match sampled {
                None => prev_direction.row_base(),
                Some(d) => {
                    if d != prev_direction || self.frame_index % 4 == 3 {
                        d.row_base()
                    } else {
                        self.frame_index + 1
                    }
                },
            };
        }
    }
}

/// Row law: if the sprite index lies in the four-frame row of the snapshot
/// direction, then after a timer-complete selection it lies in the row of
/// the effective direction — the sampled one if any, else the snapshot.
pub proof fn lemma_frame_in_row(frame: u32, sampled: Option<Direction>, prev: Direction)
    requires
        prev.spec_row_base() <= frame < prev.spec_row_base() + 4,
    ensures
        ({
            let eff = match sampled {
                Some(d) => d,
                None => prev,
            };
            let next = spec_next_frame(frame, sampled, prev);
            eff.spec_row_base() <= next < eff.spec_row_base() + 4
        }),
{
}

} // verus!
