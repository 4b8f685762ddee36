//! The two state machines of the game: the screen that is shown and the
//! phase of the game in progress.

use crate::events::{EndGameTriggered, Events};
use crate::resources::{GameTime, Score};
use vstd::prelude::*;

verus! {

/// The phase of the game in progress.
#[derive(Clone, Copy, Debug, PartialEq, Eq, Hash, Structural)]
pub enum InGameState {
    /// No game is in progress.
    NoGame,
    /// The player is shown how to play.
    Preparation,
    /// The game runs.
    Playing,
    /// The game is paused.
    Paused,
    /// The game is over and its result is shown.
    Summary,
}

/// The screen that is shown.
#[derive(Clone, Copy, Debug, PartialEq, Eq, Hash, Structural)]
pub enum Screen {
    /// Shown when the program starts.
    Splash,
    /// Shown while the assets load.
    Loading,
    /// The main menu.
    Title,
    /// Who made the game.
    Credits,
    /// How to play, before a game starts.
    Preparation,
    /// The game itself.
    Playing,
    /// The pause menu.
    Paused,
    /// The result of a game that is over.
    Summary,
}

/// A state change that waits to be carried out at the end of the frame.
#[derive(Clone, Copy, Debug, PartialEq, Eq, Structural)]
pub enum NextState<S> {
    /// Nothing was asked for.
    Unchanged,
    /// The given state was asked for.
    Pending(S),
}

impl Default for InGameState {
    /// At the start no game is in progress.
    fn default() -> (s: Self)
        ensures
            s == InGameState::NoGame,
    {
        InGameState::NoGame
    }
}

impl Default for Screen {
    /// The program starts with the splash screen.
    fn default() -> (s: Self)
        ensures
            s == Screen::Splash,
    {
        Screen::Splash
    }
}

impl<S> NextState<S> {
    /// Asks for a state; a later call replaces an earlier one.
    pub fn set(&mut self, state: S)
        ensures
            *final(self) == NextState::Pending(state),
    {
        *self = NextState::Pending(state);
    }

    /// Takes back whatever was asked for.
    pub fn reset(&mut self)
        ensures
            *final(self) == NextState::<S>::Unchanged,
    {
        *self = NextState::Unchanged;
    }
}

/// Goes on from the splash screen to the loading screen.
pub fn enter_loading(next_screen: &mut NextState<Screen>)
    ensures
        *final(next_screen) == NextState::Pending(Screen::Loading),
{
    next_screen.set(Screen::Loading);
}

/// Goes to the title screen; no game is in progress there.
pub fn enter_title(next_screen: &mut NextState<Screen>, next_state: &mut NextState<InGameState>)
    ensures
        *final(next_screen) == NextState::Pending(Screen::Title),
        *final(next_state) == NextState::Pending(InGameState::NoGame),
{
    next_screen.set(Screen::Title);
    next_state.set(InGameState::NoGame);
}

/// Goes to the playing screen and lets the game run.
pub fn enter_game(next_screen: &mut NextState<Screen>, next_state: &mut NextState<InGameState>)
    ensures
        *final(next_screen) == NextState::Pending(Screen::Playing),
        *final(next_state) == NextState::Pending(InGameState::Playing),
{
    next_screen.set(Screen::Playing);
    next_state.set(InGameState::Playing);
}

/// Goes to the preparation screen, which sets up a new game.
pub fn enter_prep(next_screen: &mut NextState<Screen>, next_state: &mut NextState<InGameState>)
    ensures
        *final(next_screen) == NextState::Pending(Screen::Preparation),
        *final(next_state) == NextState::Pending(InGameState::Preparation),
{
    next_screen.set(Screen::Preparation);
    next_state.set(InGameState::Preparation);
}

/// Goes to the credits screen.
pub fn enter_credits(next_screen: &mut NextState<Screen>)
    ensures
        *final(next_screen) == NextState::Pending(Screen::Credits),
{
    next_screen.set(Screen::Credits);
}

/// Goes to the pause screen and pauses the game.
pub fn enter_pause(next_screen: &mut NextState<Screen>, next_state: &mut NextState<InGameState>)
    ensures
        *final(next_screen) == NextState::Pending(Screen::Paused),
        *final(next_state) == NextState::Pending(InGameState::Paused),
{
    next_screen.set(Screen::Paused);
    next_state.set(InGameState::Paused);
}

/// Ends the game once an end-of-game signal waits: the signals are used up
/// and both machines are sent to the summary. Without such a signal nothing
/// changes.
pub fn check_summary_condition(
    end_game_events: &mut Events<EndGameTriggered>,
    next_state: &mut NextState<InGameState>,
    next_screen: &mut NextState<Screen>,
)
    ensures
        old(end_game_events)@.len() == 0 ==> {
            &&& final(end_game_events)@ == old(end_game_events)@
            &&& *final(next_state) == *old(next_state)
            &&& *final(next_screen) == *old(next_screen)
        },
        old(end_game_events)@.len() > 0 ==> {
            &&& final(end_game_events)@.len() == 0
            &&& *final(next_state) == NextState::Pending(InGameState::Summary)
            &&& *final(next_screen) == NextState::Pending(Screen::Summary)
        },
{
    if end_game_events.is_empty() {
        return ;
    }
    end_game_events.clear();
    next_state.set(InGameState::Summary);
    next_screen.set(Screen::Summary);
}

/// Clears what the last game left behind when a new one is prepared: no
/// game is in progress, and score and game clock start over.
pub fn clean_up(
    next_state: &mut NextState<InGameState>,
    score: &mut Score,
    game_time: &mut GameTime,
)
    ensures
        *final(next_state) == NextState::Pending(InGameState::NoGame),
        *final(score) == Score(0),
        *final(game_time) == (GameTime { time: 0 }),
{
    next_state.set(InGameState::NoGame);
    *score = Score::default();
    *game_time = GameTime::default();
}

} // verus!
