//! What each screen offers and where its buttons lead.

use crate::assets::{random_gameplay_track, Bgm};
use crate::state::{enter_credits, enter_game, enter_pause, enter_prep, enter_title};
use crate::state::{InGameState, NextState, Screen};
use crate::widgets::Key;
use vstd::prelude::*;

verus! {

/// What a button or a key asks for.
#[derive(Clone, Copy, Debug, PartialEq, Eq, Structural)]
pub enum Action {
    EnterTitle,
    EnterGame,
    EnterPrep,
    EnterCredits,
    EnterPause,
    ExitApp,
}

/// The buttons of the menus, by what is written on them.
#[derive(Clone, Copy, Debug, PartialEq, Eq, Structural)]
pub enum MenuItem {
    Play,
    Credits,
    Exit,
    Back,
    Start,
    Continue,
    Restart,
    Menu,
    Again,
}

/// A button on a screen, with the key that presses it.
#[derive(Clone, Copy, Debug, PartialEq, Eq, Structural)]
pub struct Button {
    pub item: MenuItem,
    pub key: Key,
}

/// What is written on a button.
pub open spec fn item_label_spec(item: MenuItem) -> Seq<char> {
    match item {
        MenuItem::Play => "Play"@,
        MenuItem::Credits => "Credits"@,
        MenuItem::Exit => "Exit"@,
        MenuItem::Back => "Back"@,
        MenuItem::Start => "Start"@,
        MenuItem::Continue => "Continue"@,
        MenuItem::Restart => "Restart"@,
        MenuItem::Menu => "Menu"@,
        MenuItem::Again => "Again"@,
    }
}

/// What a button asks for.
pub open spec fn item_action_spec(item: MenuItem) -> Action {
    match item {
        MenuItem::Play => Action::EnterPrep,
        MenuItem::Credits => Action::EnterCredits,
        MenuItem::Exit => Action::ExitApp,
        MenuItem::Back => Action::EnterTitle,
        MenuItem::Start => Action::EnterGame,
        MenuItem::Continue => Action::EnterGame,
        MenuItem::Restart => Action::EnterPrep,
        MenuItem::Menu => Action::EnterTitle,
        MenuItem::Again => Action::EnterPrep,
    }
}

/// The buttons of a screen, from top to bottom. The title screen offers an
/// exit only where a program can end itself.
pub open spec fn screen_buttons(screen: Screen, with_exit: bool) -> Seq<Button> {
    match screen {
        Screen::Title => if with_exit {
            seq![
                Button { item: MenuItem::Play, key: Key::KeyP },
                Button { item: MenuItem::Credits, key: Key::KeyC },
                Button { item: MenuItem::Exit, key: Key::Escape },
            ]
        } else {
            seq![
                Button { item: MenuItem::Play, key: Key::KeyP },
                Button { item: MenuItem::Credits, key: Key::KeyC },
            ]
        },
        Screen::Credits => seq![Button { item: MenuItem::Back, key: Key::Escape }],
        Screen::Preparation => seq![
            Button { item: MenuItem::Start, key: Key::Space },
            Button { item: MenuItem::Back, key: Key::Escape },
        ],
        Screen::Paused => seq![
            Button { item: MenuItem::Continue, key: Key::Escape },
            Button { item: MenuItem::Restart, key: Key::KeyR },
            Button { item: MenuItem::Menu, key: Key::KeyM },
        ],
        Screen::Summary => seq![
            Button { item: MenuItem::Again, key: Key::Space },
            Button { item: MenuItem::Menu, key: Key::Escape },
        ],
        _ => Seq::<Button>::empty(),
    }
}

/// The `i`-th button is the first that the key presses.
pub open spec fn is_first_press(buttons: Seq<Button>, key: Key, i: int) -> bool {
    &&& 0 <= i < buttons.len()
    &&& buttons[i].key == key
    &&& forall|j: int| 0 <= j < i ==> (#[trigger] buttons[j]).key != key
}

/// What a key asks for on a screen. While the game runs, escape pauses it;
/// on every other screen a key presses the first button that it belongs to.
pub open spec fn key_action(screen: Screen, with_exit: bool, key: Key, action: Action) -> bool {
    if screen == Screen::Playing {
        key == Key::Escape && action == Action::EnterPause
    } else {
        exists|i: int| #[trigger]
            is_first_press(screen_buttons(screen, with_exit), key, i) && action
                == item_action_spec(screen_buttons(screen, with_exit)[i].item)
    }
}

/// The screen that an action leads to; the exit leads to none.
pub open spec fn action_screen(action: Action) -> Option<Screen> {
    match action {
        Action::EnterTitle => Some(Screen::Title),
        Action::EnterGame => Some(Screen::Playing),
        Action::EnterPrep => Some(Screen::Preparation),
        Action::EnterCredits => Some(Screen::Credits),
        Action::EnterPause => Some(Screen::Paused),
        Action::ExitApp => None,
    }
}

/// The phase of the game that an action leads to, where it changes it.
pub open spec fn action_state(action: Action) -> Option<InGameState> {
    match action {
        Action::EnterTitle => Some(InGameState::NoGame),
        Action::EnterGame => Some(InGameState::Playing),
        Action::EnterPrep => Some(InGameState::Preparation),
        Action::EnterCredits => None,
        Action::EnterPause => Some(InGameState::Paused),
        Action::ExitApp => None,
    }
}

/// The ways from one screen to the next: from the splash screen through
/// loading to the title; between title and credits; from the title to the
/// preparation and on to the game; between the game and its pause; from the
/// game to the summary; and from preparation, pause and summary back to
/// the title, or from pause and summary on to a new preparation.
pub open spec fn flow_allows(from: Screen, to: Screen) -> bool {
    match from {
        Screen::Splash => to == Screen::Loading,
        Screen::Loading => to == Screen::Title,
        Screen::Title => to == Screen::Credits || to == Screen::Preparation,
        Screen::Credits => to == Screen::Title,
        Screen::Preparation => to == Screen::Playing || to == Screen::Title,
        Screen::Playing => to == Screen::Paused || to == Screen::Summary,
        Screen::Paused => to == Screen::Playing || to == Screen::Preparation || to
            == Screen::Title,
        Screen::Summary => to == Screen::Preparation || to == Screen::Title,
    }
}

/// The music that starts when a screen is entered.
pub open spec fn screen_music_spec(screen: Screen) -> Option<Bgm> {
    match screen {
        Screen::Title => Some(Bgm::Titles),
        Screen::Credits => Some(Bgm::Credits),
        Screen::Summary => Some(Bgm::Credits),
        _ => None,
    }
}

/// The music stops when one of these screens is left.
pub open spec fn stops_music_spec(screen: Screen) -> bool {
    screen == Screen::Title || screen == Screen::Credits || screen == Screen::Playing || screen
        == Screen::Summary
}

/// What is written on a button.
pub fn item_label(item: MenuItem) -> (label: &'static str)
    ensures
        label@ == item_label_spec(item),
{
    match item {
        MenuItem::Play => "Play",
        MenuItem::Credits => "Credits",
        MenuItem::Exit => "Exit",
        MenuItem::Back => "Back",
        MenuItem::Start => "Start",
        MenuItem::Continue => "Continue",
        MenuItem::Restart => "Restart",
        MenuItem::Menu => "Menu",
        MenuItem::Again => "Again",
    }
}

/// What a button asks for.
pub fn item_action(item: MenuItem) -> (action: Action)
    ensures
        action == item_action_spec(item),
{
    match item {
        MenuItem::Play => Action::EnterPrep,
        MenuItem::Credits => Action::EnterCredits,
        MenuItem::Exit => Action::ExitApp,
        MenuItem::Back => Action::EnterTitle,
        MenuItem::Start => Action::EnterGame,
        MenuItem::Continue => Action::EnterGame,
        MenuItem::Restart => Action::EnterPrep,
        MenuItem::Menu => Action::EnterTitle,
        MenuItem::Again => Action::EnterPrep,
    }
}

/// The buttons of the title screen.
pub fn show_title_screen(with_exit: bool) -> (buttons: Vec<Button>)
    ensures
        buttons@ == screen_buttons(Screen::Title, with_exit),
{
    let mut buttons: Vec<Button> = Vec::new();
    buttons.push(Button { item: MenuItem::Play, key: Key::KeyP });
    buttons.push(Button { item: MenuItem::Credits, key: Key::KeyC });
    if with_exit {
        buttons.push(Button { item: MenuItem::Exit, key: Key::Escape });
    }
    buttons
}

/// The buttons of the credits screen.
pub fn show_credits_screen() -> (buttons: Vec<Button>)
    ensures
        buttons@ == screen_buttons(Screen::Credits, true),
{
    let mut buttons: Vec<Button> = Vec::new();
    buttons.push(Button { item: MenuItem::Back, key: Key::Escape });
    buttons
}

/// The buttons of the preparation screen.
pub fn show_prep_screen() -> (buttons: Vec<Button>)
    ensures
        buttons@ == screen_buttons(Screen::Preparation, true),
{
    let mut buttons: Vec<Button> = Vec::new();
    buttons.push(Button { item: MenuItem::Start, key: Key::Space });
    buttons.push(Button { item: MenuItem::Back, key: Key::Escape });
    buttons
}

/// The buttons of the pause screen.
pub fn show_pause_screen() -> (buttons: Vec<Button>)
    ensures
        buttons@ == screen_buttons(Screen::Paused, true),
{
    let mut buttons: Vec<Button> = Vec::new();
    buttons.push(Button { item: MenuItem::Continue, key: Key::Escape });
    buttons.push(Button { item: MenuItem::Restart, key: Key::KeyR });
    buttons.push(Button { item: MenuItem::Menu, key: Key::KeyM });
    buttons
}

/// The buttons of the summary screen.
pub fn show_summary_screen() -> (buttons: Vec<Button>)
    ensures
        buttons@ == screen_buttons(Screen::Summary, true),
{
    let mut buttons: Vec<Button> = Vec::new();
    buttons.push(Button { item: MenuItem::Again, key: Key::Space });
    buttons.push(Button { item: MenuItem::Menu, key: Key::Escape });
    buttons
}

/// The buttons of any screen.
pub fn buttons_of(screen: Screen, with_exit: bool) -> (buttons: Vec<Button>)
    ensures
        buttons@ == screen_buttons(screen, with_exit),
{
    match screen {
        Screen::Title => show_title_screen(with_exit),
        Screen::Credits => show_credits_screen(),
        Screen::Preparation => show_prep_screen(),
        Screen::Paused => show_pause_screen(),
        Screen::Summary => show_summary_screen(),
        _ => Vec::new(),
    }
}

/// Finds the first button that a key presses.
pub fn find_button(buttons: &Vec<Button>, key: Key) -> (found: Option<usize>)
    ensures
        found matches Some(i) ==> is_first_press(buttons@, key, i as int),
        found is None ==> forall|j: int| 0 <= j < buttons@.len() ==> (#[trigger] buttons@[j]).key
            != key,
{
    let mut i: usize = 0;
    while i < buttons.len()
        invariant
            i <= buttons@.len(),
            forall|j: int| 0 <= j < i ==> (#[trigger] buttons@[j]).key != key,
        decreases buttons@.len() - i,
    {
        if buttons[i].key == key {
            return Some(i);
        }
        i = i + 1;
    }
    None
}

/// What a key asks for on a screen, if anything.
pub fn on_key(screen: Screen, with_exit: bool, key: Key) -> (asked: Option<Action>)
    ensures
        asked matches Some(action) ==> key_action(screen, with_exit, key, action),
        asked is None ==> forall|action: Action| !key_action(screen, with_exit, key, action),
{
    let playing: bool = match screen {
        Screen::Playing => true,
        _ => false,
    };
    if playing {
        if key == Key::Escape {
            Some(Action::EnterPause)
        } else {
            None
        }
    } else {
        let buttons = buttons_of(screen, with_exit);
        match find_button(&buttons, key) {
            Some(i) => Some(item_action(buttons[i].item)),
            None => None,
        }
    }
}

/// Carries out an action on the two state machines and tells whether the
/// program is to end.
pub fn perform(
    action: Action,
    next_screen: &mut NextState<Screen>,
    next_state: &mut NextState<InGameState>,
) -> (exit: bool)
    ensures
        exit == (action == Action::ExitApp),
        *final(next_screen) == (match action_screen(action) {
            Some(s) => NextState::Pending(s),
            None => *old(next_screen),
        }),
        *final(next_state) == (match action_state(action) {
            Some(s) => NextState::Pending(s),
            None => *old(next_state),
        }),
{
    match action {
        Action::EnterTitle => {
            enter_title(next_screen, next_state);
            false
        },
        Action::EnterGame => {
            enter_game(next_screen, next_state);
            false
        },
        Action::EnterPrep => {
            enter_prep(next_screen, next_state);
            false
        },
        Action::EnterCredits => {
            enter_credits(next_screen);
            false
        },
        Action::EnterPause => {
            enter_pause(next_screen, next_state);
            false
        },
        Action::ExitApp => true,
    }
}

/// The music that starts when a screen is entered, if any.
pub fn screen_music(screen: Screen) -> (track: Option<Bgm>)
    ensures
        track == screen_music_spec(screen),
{
    match screen {
        Screen::Title => Some(Bgm::Titles),
        Screen::Credits => Some(Bgm::Credits),
        Screen::Summary => Some(Bgm::Credits),
        _ => None,
    }
}

/// Tells whether the music stops when a screen is left.
pub fn stops_music(screen: Screen) -> (stops: bool)
    ensures
        stops == stops_music_spec(screen),
{
    match screen {
        Screen::Title => true,
        Screen::Credits => true,
        Screen::Playing => true,
        Screen::Summary => true,
        _ => false,
    }
}

/// The music with which a level starts when the preparation is left: one
/// of the two gameplay pieces, picked at random.
pub fn spawn_level() -> (track: Bgm)
    ensures
        track == Bgm::Gameplay1 || track == Bgm::Gameplay2,
{
    random_gameplay_track()
}

/// Whatever key is pressed on whatever screen, the screen that it leads to
/// is one that the flow of screens allows.
pub proof fn law_keys_follow_the_flow(screen: Screen, with_exit: bool, key: Key, action: Action)
    requires
        key_action(screen, with_exit, key, action),
    ensures
        action_screen(action) matches Some(to) ==> flow_allows(screen, to),
{
}

} // verus!
