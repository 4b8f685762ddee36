//! The menus of the game in play: which request a released button sends.

use crate::buttons::ReleaseButton;
use crate::events::{Events, MenuRequested, OptionsRequested, RestartRequested};
use crate::events::{TogglePauseRequested, UpdateOptions};
use crate::state::NextState;
use vstd::prelude::*;

verus! {

/// The state of the program as a whole.
#[derive(Clone, Copy, Debug, PartialEq, Eq, Hash, Structural)]
pub enum AppState {
    Menu,
    InGame,
    RestartInGame,
}

/// Marks the view that tells how to play.
#[derive(Clone, Copy, Debug, PartialEq, Eq, Structural)]
pub struct PreparationView;

/// Number of lines of the view that tells how to play.
pub const PREPARATION_LINES: usize = 4;

/// One of the buttons has fired in this frame.
pub open spec fn any_fired(buttons: Seq<ReleaseButton>) -> bool {
    exists|i: int| 0 <= i < buttons.len() && (#[trigger] buttons[i]).just_released
}

/// The `i`-th line of the view that tells how to play.
pub open spec fn preparation_line(i: int) -> Seq<char> {
    if i == 0 {
        "Use arrows to move the player."@
    } else if i == 1 {
        "Escape the enemies."@
    } else if i == 2 {
        "Press any key to start."@
    } else {
        "(Optionally, press esc to pause.)"@
    }
}

impl Default for AppState {
    /// The program starts in the menu.
    fn default() -> (s: Self)
        ensures
            s == AppState::Menu,
    {
        AppState::Menu
    }
}

impl PreparationView {
    /// One line of the view.
    pub fn line(i: usize) -> (text: &'static str)
        requires
            i < PREPARATION_LINES,
        ensures
            text@ == preparation_line(i as int),
    {
        if i == 0 {
            "Use arrows to move the player."
        } else if i == 1 {
            "Escape the enemies."
        } else if i == 2 {
            "Press any key to start."
        } else {
            "(Optionally, press esc to pause.)"
        }
    }
}

/// Tells whether one of the buttons has fired in this frame.
pub fn fired(buttons: &Vec<ReleaseButton>) -> (yes: bool)
    ensures
        yes == any_fired(buttons@),
{
    let mut i: usize = 0;
    while i < buttons.len()
        invariant
            i <= buttons@.len(),
            forall|j: int| 0 <= j < i ==> !(#[trigger] buttons@[j]).just_released,
        decreases buttons@.len() - i,
    {
        if buttons[i].just_released {
            return true;
        }
        i = i + 1;
    }
    false
}

/// Starts a game when the play button of the main menu has fired.
pub fn check_menu_interactions(
    play_buttons: &Vec<ReleaseButton>,
    next_state: &mut NextState<AppState>,
)
    ensures
        *final(next_state) == (if any_fired(play_buttons@) {
            NextState::Pending(AppState::InGame)
        } else {
            *old(next_state)
        }),
{
    if fired(play_buttons) {
        next_state.set(AppState::InGame);
    }
}

/// Sends the request of the pause menu's button that has fired. Of several
/// that fired in one frame only the first counts, in the order menu,
/// restart, continue, options.
pub fn check_pause_interactions(
    menu_buttons: &Vec<ReleaseButton>,
    restart_buttons: &Vec<ReleaseButton>,
    continue_buttons: &Vec<ReleaseButton>,
    options_buttons: &Vec<ReleaseButton>,
    menu_requested: &mut Events<MenuRequested>,
    options_requested: &mut Events<OptionsRequested>,
    restart_requested: &mut Events<RestartRequested>,
    toggle_pause_requested: &mut Events<TogglePauseRequested>,
)
    ensures
        final(menu_requested)@ == (if any_fired(menu_buttons@) {
            old(menu_requested)@.push(MenuRequested)
        } else {
            old(menu_requested)@
        }),
        final(restart_requested)@ == (if !any_fired(menu_buttons@) && any_fired(
            restart_buttons@,
        ) {
            old(restart_requested)@.push(RestartRequested)
        } else {
            old(restart_requested)@
        }),
        final(toggle_pause_requested)@ == (if !any_fired(menu_buttons@) && !any_fired(
            restart_buttons@,
        ) && any_fired(continue_buttons@) {
            old(toggle_pause_requested)@.push(TogglePauseRequested)
        } else {
            old(toggle_pause_requested)@
        }),
        final(options_requested)@ == (if !any_fired(menu_buttons@) && !any_fired(
            restart_buttons@,
        ) && !any_fired(continue_buttons@) && any_fired(options_buttons@) {
            old(options_requested)@.push(OptionsRequested)
        } else {
            old(options_requested)@
        }),
{
    if fired(menu_buttons) {
        menu_requested.send(MenuRequested);
        return ;
    }
    if fired(restart_buttons) {
        restart_requested.send(RestartRequested);
        return ;
    }
    if fired(continue_buttons) {
        toggle_pause_requested.send(TogglePauseRequested);
        return ;
    }
    if fired(options_buttons) {
        options_requested.send(OptionsRequested);
    }
}

/// Sends the request of the summary's button that has fired: the menu
/// before the restart.
pub fn check_summary_interactions(
    menu_buttons: &Vec<ReleaseButton>,
    restart_buttons: &Vec<ReleaseButton>,
    menu_requested: &mut Events<MenuRequested>,
    restart_requested: &mut Events<RestartRequested>,
)
    ensures
        final(menu_requested)@ == (if any_fired(menu_buttons@) {
            old(menu_requested)@.push(MenuRequested)
        } else {
            old(menu_requested)@
        }),
        final(restart_requested)@ == (if !any_fired(menu_buttons@) && any_fired(
            restart_buttons@,
        ) {
            old(restart_requested)@.push(RestartRequested)
        } else {
            old(restart_requested)@
        }),
{
    if fired(menu_buttons) {
        menu_requested.send(MenuRequested);
        return ;
    }
    if fired(restart_buttons) {
        restart_requested.send(RestartRequested);
    }
}

/// Sends the requests of the options menu: accepting updates the options
/// and leaves the pause, cancelling only leaves the pause; accepting comes
/// first.
pub fn check_options_interactions(
    accept_buttons: &Vec<ReleaseButton>,
    cancel_buttons: &Vec<ReleaseButton>,
    update_options: &mut Events<UpdateOptions>,
    toggle_pause_requested: &mut Events<TogglePauseRequested>,
)
    ensures
        final(update_options)@ == (if any_fired(accept_buttons@) {
            old(update_options)@.push(UpdateOptions)
        } else {
            old(update_options)@
        }),
        final(toggle_pause_requested)@ == (if any_fired(accept_buttons@) || any_fired(
            cancel_buttons@,
        ) {
            old(toggle_pause_requested)@.push(TogglePauseRequested)
        } else {
            old(toggle_pause_requested)@
        }),
{
    if fired(accept_buttons) {
        update_options.send(UpdateOptions);
        toggle_pause_requested.send(TogglePauseRequested);
        return ;
    }
    if fired(cancel_buttons) {
        toggle_pause_requested.send(TogglePauseRequested);
    }
}

} // verus!
