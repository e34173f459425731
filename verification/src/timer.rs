//! A one-shot millisecond timer. Repeating behaviour is had by resetting
//! the timer at the moment it reports completion.

use vstd::prelude::*;

verus! {

/// A countdown that accumulates elapsed time up to a fixed duration.
#[derive(Clone, Copy, PartialEq, Eq, Structural, Debug)]
pub struct TimerMs {
    pub elapsed_ms: u32,
    pub duration_ms: u32,
}

impl TimerMs {
    /// Well-formedness: elapsed time never passes the duration.
    pub open spec fn wf(self) -> bool {
        self.elapsed_ms <= self.duration_ms
    }

    /// The timer has run its full duration.
    pub open spec fn spec_finished(self) -> bool {
        self.elapsed_ms == self.duration_ms
    }

    /// A fresh timer for the given duration.
    pub fn new(duration_ms: u32) -> (r: Self)
        ensures
            r.elapsed_ms == 0 && r.duration_ms == duration_ms,
            r.wf(),
    {
        TimerMs { elapsed_ms: 0, duration_ms }
    }

    /// Starts the countdown over.
    pub fn reset(&mut self)
        ensures
            final(self).elapsed_ms == 0,
            final(self).duration_ms == old(self).duration_ms,
            final(self).wf(),
    {
        self.elapsed_ms = 0;
    }

    /// Whether the timer has run its full duration.
    pub fn finished(&self) -> (r: bool)
        ensures
            r == self.spec_finished(),
    {
        self.elapsed_ms == self.duration_ms
    }

    /// The timer after one tick of the given length: elapsed time grows
    /// by the tick, capped at the duration.
    pub open spec fn spec_ticked(self, dt_ms: int) -> TimerMs {
        TimerMs {
            elapsed_ms: if self.elapsed_ms + dt_ms <= self.duration_ms {
                (self.elapsed_ms + dt_ms) as u32
            } else {
                self.duration_ms
            },
            duration_ms: self.duration_ms,
        }
    }

    /// Whether a tick of the given length is the one that reaches the
    /// end of the countdown.
    pub open spec fn spec_just_finishes(self, dt_ms: int) -> bool {
        !self.spec_finished() && self.spec_ticked(dt_ms).spec_finished()
    }

    /// Advances the timer, capping at the duration; reports true exactly
    /// on the tick that reaches the end.
    pub fn tick(&mut self, dt_ms: u32) -> (just_finished: bool)
        requires
            old(self).wf(),
    ensures
            *final(self) == old(self).spec_ticked(dt_ms as int),
            final(self).wf(),
            just_finished == old(self).spec_just_finishes(dt_ms as int),
    {
        let was_finished = self.elapsed_ms == self.duration_ms;
        let remaining = self.duration_ms - self.elapsed_ms;
        if dt_ms >= remaining {
            self.elapsed_ms = self.duration_ms;
        } else {
            self.elapsed_ms = self.elapsed_ms + dt_ms;
        }
        !was_finished && self.elapsed_ms == self.duration_ms
    }
}

} // verus!
