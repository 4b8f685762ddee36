//! A timer that counts elapsed milliseconds against a fixed duration.

use crate::fixed::LIMIT;
use vstd::prelude::*;

verus! {

/// What a timer does once its duration has elapsed.
#[derive(Clone, Copy, Debug, PartialEq, Eq, Structural)]
pub enum TimerMode {
    /// Stops at its duration and stays finished.
    Once,
    /// Wraps around and starts over.
    Repeating,
}

/// Elapsed time against a duration, both in milliseconds.
#[derive(Clone, Copy, Debug, PartialEq, Eq, Structural)]
pub struct Timer {
    pub duration: i64,
    pub elapsed: i64,
    pub finished: bool,
    pub mode: TimerMode,
}

impl Timer {
    /// The elapsed time never passes the duration, and a timer that stops
    /// once is finished exactly when it has reached it after a tick.
    pub open spec fn wf(self) -> bool {
        &&& 0 <= self.elapsed <= self.duration <= LIMIT
        &&& self.mode == TimerMode::Once && self.finished ==> self.elapsed == self.duration
    }

    /// The timer after `dt` more milliseconds.
    ///
    /// A finished one-shot timer no longer moves. Otherwise the time is
    /// added; a one-shot timer stops at its duration, a repeating timer keeps
    /// the remainder of the division by its duration.
    pub open spec fn ticked(self, dt: int) -> Timer {
        if self.mode == TimerMode::Once && self.finished {
            self
        } else if self.elapsed + dt >= self.duration {
            Timer {
                elapsed: if self.mode == TimerMode::Once {
                    self.duration
                } else if self.duration == 0 {
                    0
                } else {
                    ((self.elapsed + dt) % (self.duration as int)) as i64
                },
                finished: true,
                ..self
            }
        } else {
            Timer { elapsed: (self.elapsed + dt) as i64, finished: false, ..self }
        }
    }

    /// A fresh timer of the given duration.
    pub fn new(duration: i64, mode: TimerMode) -> (t: Self)
        ensures
            t == (Timer { duration, elapsed: 0, finished: false, mode }),
            0 <= duration <= LIMIT ==> t.wf(),
    {
        Timer { duration, elapsed: 0, finished: false, mode }
    }

    /// Tells whether the timer is well formed.
    pub fn is_valid(&self) -> (ok: bool)
        ensures
            ok == self.wf(),
    {
        let in_range: bool = 0 <= self.elapsed && self.elapsed <= self.duration && self.duration
            <= LIMIT;
        let settled: bool = match self.mode {
            TimerMode::Once => !self.finished || self.elapsed == self.duration,
            TimerMode::Repeating => true,
        };
        in_range && settled
    }

    /// Advances the timer by `dt` milliseconds.
    pub fn tick(&mut self, dt: i64)
        requires
            old(self).wf(),
            0 <= dt <= LIMIT,
        ensures
            *final(self) == old(self).ticked(dt as int),
            final(self).wf(),
    {
        let once: bool = match self.mode {
            TimerMode::Once => true,
            TimerMode::Repeating => false,
        };
        if once && self.finished {
            return ;
        }
        let total: i64 = self.elapsed + dt;
        if total >= self.duration {
            self.finished = true;
            if once {
                self.elapsed = self.duration;
            } else if self.duration == 0 {
                self.elapsed = 0;
            } else {
                self.elapsed = total % self.duration;
            }
        } else {
            self.finished = false;
            self.elapsed = total;
        }
    }

    /// Tells whether the last tick reached the duration.
    pub fn finished(&self) -> (done: bool)
        ensures
            done == self.finished,
    {
        self.finished
    }

    /// Starts the timer over.
    pub fn reset(&mut self)
        ensures
            *final(self) == (Timer { elapsed: 0, finished: false, ..*old(self) }),
    {
        self.elapsed = 0;
        self.finished = false;
    }
}

} // verus!
