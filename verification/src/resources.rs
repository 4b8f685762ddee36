//! The global quantities of a session: the score, the game clock, and the
//! time of the last frame.

use crate::fixed::{clamp_spec, clamp_wide, LIMIT};
use vstd::prelude::*;

verus! {

/// The player's score, in thousandths of a point.
#[derive(Clone, Copy, Debug, PartialEq, Eq, Structural)]
pub struct Score(pub i64);

/// Time played in the current session, in milliseconds.
#[derive(Clone, Copy, Debug, PartialEq, Eq, Structural)]
pub struct GameTime {
    pub time: i64,
}

/// The time that a frame took, in whole milliseconds. What is left over of
/// a frame, in microseconds, is carried into the next.
#[derive(Clone, Copy, Debug, PartialEq, Eq, Structural)]
pub struct FrameTime {
    pub millis: i64,
    pub carry_micros: u64,
}

/// A counter after adding `amount`, saturating at the ends of its range.
pub open spec fn accumulated(total: int, amount: int) -> int {
    clamp_spec(total + amount, i64::MIN as int, i64::MAX as int)
}

impl Default for Score {
    /// A session starts without points.
    fn default() -> (s: Self)
        ensures
            s == Score(0),
    {
        Score(0)
    }
}

impl Default for GameTime {
    /// A session starts at time zero.
    fn default() -> (t: Self)
        ensures
            t == (GameTime { time: 0 }),
    {
        GameTime { time: 0 }
    }
}

impl Default for FrameTime {
    /// Before the first frame no time has passed.
    fn default() -> (f: Self)
        ensures
            f == (FrameTime { millis: 0, carry_micros: 0 }),
    {
        FrameTime { millis: 0, carry_micros: 0 }
    }
}

impl FrameTime {
    /// Less than a millisecond is carried over.
    pub open spec fn wf(self) -> bool {
        self.carry_micros < 1000
    }

    /// The frame time after a frame of `delta_micros` microseconds: the
    /// whole milliseconds of that time and of what was carried over, at
    /// most the limit for configured quantities, and the rest carried on.
    pub open spec fn measured(self, delta_micros: u64) -> FrameTime {
        let total = delta_micros + self.carry_micros;
        FrameTime {
            millis: (if total / 1000 > LIMIT {
                LIMIT as int
            } else {
                total / 1000
            }) as i64,
            carry_micros: (total % 1000) as u64,
        }
    }

    /// Takes in the time that the last frame took.
    pub fn measure(&mut self, delta_micros: u64)
        ensures
            *final(self) == old(self).measured(delta_micros),
            final(self).wf(),
            0 <= final(self).millis <= LIMIT,
    {
        let total: u128 = delta_micros as u128 + self.carry_micros as u128;
        let whole: u128 = total / 1000;
        self.millis = if whole > LIMIT as u128 {
            LIMIT
        } else {
            whole as i64
        };
        self.carry_micros = (total % 1000) as u64;
    }
}

impl Score {
    /// Adds a reward to the score.
    pub fn award(&mut self, amount: i64)
        ensures
            final(self).0 == accumulated(old(self).0 as int, amount as int),
    {
        self.0 = clamp_wide(self.0 as i128 + amount as i128, i64::MIN, i64::MAX);
    }

    /// The score in whole points, rounded down, as the summary shows it:
    /// zero for a negative score, and the largest value that fits for one too
    /// large to show.
    pub open spec fn whole_points(self) -> int {
        clamp_spec(self.0 / 1000, 0, u32::MAX as int)
    }

    /// The score in whole points, rounded down.
    pub fn floor_points(&self) -> (p: u32)
        ensures
            p == self.whole_points(),
    {
        if self.0 < 0 {
            0
        } else {
            let whole: i64 = self.0 / 1000;
            if whole > u32::MAX as i64 {
                u32::MAX
            } else {
                whole as u32
            }
        }
    }
}

/// Advances the game clock by the time that the last frame took.
pub fn update_game_time(game_time: &mut GameTime, dt: i64)
    ensures
        final(game_time).time == accumulated(old(game_time).time as int, dt as int),
{
    game_time.time = clamp_wide(game_time.time as i128 + dt as i128, i64::MIN, i64::MAX);
}

} // verus!
