//! The summary of a game that is over: the score in whole points and, for
//! a player whose score is exactly zero, a teasing remark.

use crate::random::uniform_index;
use crate::resources::Score;
use vstd::prelude::*;

verus! {

/// Number of teasing remarks.
pub const MESSAGE_COUNT: usize = 31;

/// What the summary shows.
#[derive(Clone, Copy, Debug)]
pub struct SummaryText {
    /// The score in whole points.
    pub score: u32,
    /// The remark, shown only to a player whose score is exactly zero.
    pub message: Option<&'static str>,
}

/// The `i`-th teasing remark.
pub open spec fn message_text(i: int) -> Seq<char> {
    if i == 0 {
        "Wow, you're really good at this game!"@
    }     else if i == 1 {
        "You're a natural!"@
    }     else if i == 2 {
        "Are you trying?"@
    }     else if i == 3 {
        "Seems unlikely..."@
    }     else if i == 4 {
        "Again?"@
    }     else if i == 5 {
        "Try not getting hit next time!"@
    }     else if i == 6 {
        "Try not to die!"@
    }     else if i == 7 {
        "Again?"@
    }     else if i == 8 {
        "Once more, with feeling!"@
    }     else if i == 9 {
        "Fly casual!"@
    }     else if i == 10 {
        "When life gives you lemons..."@
    }     else if i == 11 {
        "Time to git gud!"@
    }     else if i == 12 {
        "What happened?"@
    }     else if i == 13 {
        "Oh no happened!"@
    }     else if i == 14 {
        "Give it another go!"@
    }     else if i == 15 {
        "not like this..."@
    }     else if i == 16 {
        "Ouch..."@
    }     else if i == 17 {
        "I think you can do better!"@
    }     else if i == 18 {
        "You're better than this!"@
    }     else if i == 19 {
        "You can do it!"@
    }     else if i == 20 {
        "You're a star!"@
    }     else if i == 21 {
        "You're a shooting star!"@
    }     else if i == 22 {
        "You've got the power!"@
    }     else if i == 23 {
        "You're indestructible!"@
    }     else if i == 24 {
        "Always believe in yourself!"@
    }     else if i == 25 {
        "Hmm..."@
    }     else if i == 26 {
        "Go on, try again!"@
    }     else if i == 27 {
        "Go on, go on, go on!"@
    }     else if i == 28 {
        "Give up?"@
    }     else if i == 29 {
        "Thirsty for more?"@
    } else {
        "Just a little more!"@
    }
}

/// The text is one of the teasing remarks.
pub open spec fn is_remark(text: Seq<char>) -> bool {
    exists|i: int| 0 <= i < MESSAGE_COUNT && text == #[trigger] message_text(i)
}

/// The `i`-th teasing remark.
pub fn message_at(i: usize) -> (text: &'static str)
    requires
        i < MESSAGE_COUNT,
    ensures
        text@ == message_text(i as int),
{
    if i == 0 {
        "Wow, you're really good at this game!"
    }     else if i == 1 {
        "You're a natural!"
    }     else if i == 2 {
        "Are you trying?"
    }     else if i == 3 {
        "Seems unlikely..."
    }     else if i == 4 {
        "Again?"
    }     else if i == 5 {
        "Try not getting hit next time!"
    }     else if i == 6 {
        "Try not to die!"
    }     else if i == 7 {
        "Again?"
    }     else if i == 8 {
        "Once more, with feeling!"
    }     else if i == 9 {
        "Fly casual!"
    }     else if i == 10 {
        "When life gives you lemons..."
    }     else if i == 11 {
        "Time to git gud!"
    }     else if i == 12 {
        "What happened?"
    }     else if i == 13 {
        "Oh no happened!"
    }     else if i == 14 {
        "Give it another go!"
    }     else if i == 15 {
        "not like this..."
    }     else if i == 16 {
        "Ouch..."
    }     else if i == 17 {
        "I think you can do better!"
    }     else if i == 18 {
        "You're better than this!"
    }     else if i == 19 {
        "You can do it!"
    }     else if i == 20 {
        "You're a star!"
    }     else if i == 21 {
        "You're a shooting star!"
    }     else if i == 22 {
        "You've got the power!"
    }     else if i == 23 {
        "You're indestructible!"
    }     else if i == 24 {
        "Always believe in yourself!"
    }     else if i == 25 {
        "Hmm..."
    }     else if i == 26 {
        "Go on, try again!"
    }     else if i == 27 {
        "Go on, go on, go on!"
    }     else if i == 28 {
        "Give up?"
    }     else if i == 29 {
        "Thirsty for more?"
    } else {
        "Just a little more!"
    }
}

/// A teasing remark, picked at random.
pub fn zero_points_message() -> (text: &'static str)
    ensures
        is_remark(text@),
{
    let pick: usize = uniform_index(MESSAGE_COUNT);
    message_at(pick)
}

/// The summary for a score, given which remark a score of zero is met
/// with: the score rounded down to whole points, and that remark if and
/// only if the score itself is zero. Any other score, however small and
/// whether above or below zero, gets no remark.
pub fn summary_for(score: &Score, pick: usize) -> (s: SummaryText)
    requires
        pick < MESSAGE_COUNT,
    ensures
        s.score == score.whole_points(),
        score.0 == 0 ==> (s.message matches Some(m) && m@ == message_text(pick as int)),
        score.0 != 0 ==> s.message is None,
{
    if score.0 == 0 {
        SummaryText { score: score.floor_points(), message: Some(message_at(pick)) }
    } else {
        SummaryText { score: score.floor_points(), message: None }
    }
}

/// The summary of a game that has just ended: the score rounded down to
/// whole points, and a teasing remark if and only if the score itself is
/// zero. Any other score, however small and whether above or below zero,
/// gets no remark.
pub fn summary_text(score: &Score) -> (s: SummaryText)
    ensures
        s.score == score.whole_points(),
        s.message is Some <==> score.0 == 0,
        s.message matches Some(m) ==> is_remark(m@),
{
    if score.0 == 0 {
        SummaryText { score: score.floor_points(), message: Some(zero_points_message()) }
    } else {
        SummaryText { score: score.floor_points(), message: None }
    }
}

} // verus!
