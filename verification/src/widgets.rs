//! Text of the menu widgets: how a key is named on a button, and how a
//! button's label is put together.

use crate::resources::{GameTime, Score};
use vstd::prelude::*;
use vstd::string::StringExecFns;

verus! {

/// The keys that carry a name on a button. Every other key is `Other`.
#[derive(Clone, Copy, Debug, PartialEq, Eq, Structural)]
pub enum Key {
    Digit1,
    Digit2,
    Digit3,
    Digit4,
    Digit5,
    Digit6,
    Digit7,
    Digit8,
    Digit9,
    Digit0,
    KeyA,
    KeyB,
    KeyC,
    KeyD,
    KeyE,
    KeyF,
    KeyG,
    KeyH,
    KeyI,
    KeyJ,
    KeyK,
    KeyL,
    KeyM,
    KeyN,
    KeyO,
    KeyP,
    KeyQ,
    KeyR,
    KeyS,
    KeyT,
    KeyU,
    KeyV,
    KeyW,
    KeyX,
    KeyY,
    KeyZ,
    Escape,
    F1,
    F2,
    F3,
    F4,
    F5,
    F6,
    F7,
    F8,
    F9,
    F10,
    F11,
    F12,
    Insert,
    Delete,
    Home,
    End,
    PageUp,
    PageDown,
    ArrowUp,
    ArrowDown,
    ArrowLeft,
    ArrowRight,
    Space,
    Backspace,
    Enter,
    Tab,
    CapsLock,
    ShiftLeft,
    ShiftRight,
    ControlLeft,
    ControlRight,
    AltLeft,
    AltRight,
    ContextMenu,
    Other,
}

/// The name under which a key is shown.
pub open spec fn key_label(key: Key) -> Seq<char> {
    match key {
        Key::Digit1 => "1"@,
        Key::Digit2 => "2"@,
        Key::Digit3 => "3"@,
        Key::Digit4 => "4"@,
        Key::Digit5 => "5"@,
        Key::Digit6 => "6"@,
        Key::Digit7 => "7"@,
        Key::Digit8 => "8"@,
        Key::Digit9 => "9"@,
        Key::Digit0 => "0"@,
        Key::KeyA => "A"@,
        Key::KeyB => "B"@,
        Key::KeyC => "C"@,
        Key::KeyD => "D"@,
        Key::KeyE => "E"@,
        Key::KeyF => "F"@,
        Key::KeyG => "G"@,
        Key::KeyH => "H"@,
        Key::KeyI => "I"@,
        Key::KeyJ => "J"@,
        Key::KeyK => "K"@,
        Key::KeyL => "L"@,
        Key::KeyM => "M"@,
        Key::KeyN => "N"@,
        Key::KeyO => "O"@,
        Key::KeyP => "P"@,
        Key::KeyQ => "Q"@,
        Key::KeyR => "R"@,
        Key::KeyS => "S"@,
        Key::KeyT => "T"@,
        Key::KeyU => "U"@,
        Key::KeyV => "V"@,
        Key::KeyW => "W"@,
        Key::KeyX => "X"@,
        Key::KeyY => "Y"@,
        Key::KeyZ => "Z"@,
        Key::Escape => "Esc"@,
        Key::F1 => "F1"@,
        Key::F2 => "F2"@,
        Key::F3 => "F3"@,
        Key::F4 => "F4"@,
        Key::F5 => "F5"@,
        Key::F6 => "F6"@,
        Key::F7 => "F7"@,
        Key::F8 => "F8"@,
        Key::F9 => "F9"@,
        Key::F10 => "F10"@,
        Key::F11 => "F11"@,
        Key::F12 => "F12"@,
        Key::Insert => "Ins"@,
        Key::Delete => "Del"@,
        Key::Home => "Home"@,
        Key::End => "End"@,
        Key::PageUp => "PgUp"@,
        Key::PageDown => "PgDn"@,
        Key::ArrowUp => "↑"@,
        Key::ArrowDown => "↓"@,
        Key::ArrowLeft => "←"@,
        Key::ArrowRight => "→"@,
        Key::Space => "Space"@,
        Key::Backspace => "Backspace"@,
        Key::Enter => "Enter"@,
        Key::Tab => "Tab"@,
        Key::CapsLock => "Caps"@,
        Key::ShiftLeft => "Shift"@,
        Key::ShiftRight => "Shift"@,
        Key::ControlLeft => "Ctrl"@,
        Key::ControlRight => "Ctrl"@,
        Key::AltLeft => "Alt"@,
        Key::AltRight => "Alt"@,
        Key::ContextMenu => "Menu"@,
        Key::Other => "???"@,
    }
}

/// The text of a button: its label, followed by the name of its key in
/// round brackets where it has one.
pub open spec fn button_text_spec(label: Seq<char>, key: Option<Key>) -> Seq<char> {
    match key {
        Some(k) => label + " ("@ + key_label(k) + ")"@,
        None => label,
    }
}

/// Names a key as a button shows it.
pub fn key_to_string(key: Key) -> (name: &'static str)
    ensures
        name@ == key_label(key),
{
    match key {
        Key::Digit1 => "1",
        Key::Digit2 => "2",
        Key::Digit3 => "3",
        Key::Digit4 => "4",
        Key::Digit5 => "5",
        Key::Digit6 => "6",
        Key::Digit7 => "7",
        Key::Digit8 => "8",
        Key::Digit9 => "9",
        Key::Digit0 => "0",
        Key::KeyA => "A",
        Key::KeyB => "B",
        Key::KeyC => "C",
        Key::KeyD => "D",
        Key::KeyE => "E",
        Key::KeyF => "F",
        Key::KeyG => "G",
        Key::KeyH => "H",
        Key::KeyI => "I",
        Key::KeyJ => "J",
        Key::KeyK => "K",
        Key::KeyL => "L",
        Key::KeyM => "M",
        Key::KeyN => "N",
        Key::KeyO => "O",
        Key::KeyP => "P",
        Key::KeyQ => "Q",
        Key::KeyR => "R",
        Key::KeyS => "S",
        Key::KeyT => "T",
        Key::KeyU => "U",
        Key::KeyV => "V",
        Key::KeyW => "W",
        Key::KeyX => "X",
        Key::KeyY => "Y",
        Key::KeyZ => "Z",
        Key::Escape => "Esc",
        Key::F1 => "F1",
        Key::F2 => "F2",
        Key::F3 => "F3",
        Key::F4 => "F4",
        Key::F5 => "F5",
        Key::F6 => "F6",
        Key::F7 => "F7",
        Key::F8 => "F8",
        Key::F9 => "F9",
        Key::F10 => "F10",
        Key::F11 => "F11",
        Key::F12 => "F12",
        Key::Insert => "Ins",
        Key::Delete => "Del",
        Key::Home => "Home",
        Key::End => "End",
        Key::PageUp => "PgUp",
        Key::PageDown => "PgDn",
        Key::ArrowUp => "↑",
        Key::ArrowDown => "↓",
        Key::ArrowLeft => "←",
        Key::ArrowRight => "→",
        Key::Space => "Space",
        Key::Backspace => "Backspace",
        Key::Enter => "Enter",
        Key::Tab => "Tab",
        Key::CapsLock => "Caps",
        Key::ShiftLeft => "Shift",
        Key::ShiftRight => "Shift",
        Key::ControlLeft => "Ctrl",
        Key::ControlRight => "Ctrl",
        Key::AltLeft => "Alt",
        Key::AltRight => "Alt",
        Key::ContextMenu => "Menu",
        Key::Other => "???",
    }
}

/// Puts together the text of a button.
pub fn button_text(label: &str, key: Option<Key>) -> (text: String)
    ensures
        text@ == button_text_spec(label@, key),
{
    let mut text = String::from_str(label);
    match key {
        Some(k) => {
            text.append(" (");
            text.append(key_to_string(k));
            text.append(")");
        },
        None => {},
    }
    text
}

/// The character of a decimal digit.
pub open spec fn digit_char(d: int) -> char {
    if d == 0 {
        '0'
    } else if d == 1 {
        '1'
    } else if d == 2 {
        '2'
    } else if d == 3 {
        '3'
    } else if d == 4 {
        '4'
    } else if d == 5 {
        '5'
    } else if d == 6 {
        '6'
    } else if d == 7 {
        '7'
    } else if d == 8 {
        '8'
    } else {
        '9'
    }
}

/// A number written in decimal digits, without leading zeros.
pub open spec fn decimal_spec(n: nat) -> Seq<char>
    decreases n,
{
    if n < 10 {
        seq![digit_char(n as int)]
    } else {
        decimal_spec(n / 10).push(digit_char((n % 10) as int))
    }
}

/// Tenths of a second in a time of milliseconds, rounded to the nearest.
pub open spec fn tenths_spec(millis: int) -> int {
    (millis + 50) / 100
}

/// The line that tells the score at the end of a game.
pub open spec fn score_line_spec(points: u32) -> Seq<char> {
    "Your score: "@ + decimal_spec(points as nat)
}

/// The line that tells score and playing time while the game runs: the
/// score in whole points and the time in seconds with one decimal place.
pub open spec fn hud_line_spec(score: Score, time: GameTime) -> Seq<char> {
    "Score: "@ + decimal_spec(score.whole_points() as nat) + " | Runtime: "@ + decimal_spec(
        (tenths_spec(time.time as int) / 10) as nat,
    ) + "."@ + decimal_spec((tenths_spec(time.time as int) % 10) as nat) + "s"@
}

/// One decimal digit as text.
fn digit_str(d: u64) -> (text: &'static str)
    requires
        d < 10,
    ensures
        text@ == seq![digit_char(d as int)],
{
    proof {
        reveal_strlit("0");
        reveal_strlit("1");
        reveal_strlit("2");
        reveal_strlit("3");
        reveal_strlit("4");
        reveal_strlit("5");
        reveal_strlit("6");
        reveal_strlit("7");
        reveal_strlit("8");
        reveal_strlit("9");
    }
    let text = if d == 0 {
        "0"
    } else if d == 1 {
        "1"
    } else if d == 2 {
        "2"
    } else if d == 3 {
        "3"
    } else if d == 4 {
        "4"
    } else if d == 5 {
        "5"
    } else if d == 6 {
        "6"
    } else if d == 7 {
        "7"
    } else if d == 8 {
        "8"
    } else {
        "9"
    };
    text
}

/// Writes a number in decimal digits.
pub fn decimal(n: u64) -> (text: String)
    ensures
        text@ == decimal_spec(n as nat),
    decreases n,
{
    if n < 10 {
        String::from_str(digit_str(n))
    } else {
        let mut text = decimal(n / 10);
        text.append(digit_str(n % 10));
        text
    }
}

/// The line that tells the score at the end of a game.
pub fn score_line(points: u32) -> (text: String)
    ensures
        text@ == score_line_spec(points),
{
    let mut text = String::from_str("Your score: ");
    let digits = decimal(points as u64);
    text.append(digits.as_str());
    text
}

/// The line that tells score and playing time while the game runs.
pub fn update_score(score: &Score, time: &GameTime) -> (text: String)
    requires
        0 <= time.time,
    ensures
        text@ == hud_line_spec(*score, *time),
{
    let tenths: i128 = (time.time as i128 + 50) / 100;
    let mut text = String::from_str("Score: ");
    let points = decimal(score.floor_points() as u64);
    text.append(points.as_str());
    text.append(" | Runtime: ");
    let seconds = decimal((tenths / 10) as u64);
    text.append(seconds.as_str());
    text.append(".");
    let fraction = decimal((tenths % 10) as u64);
    text.append(fraction.as_str());
    text.append("s");
    text
}

} // verus!
