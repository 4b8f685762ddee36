use chase_me::resources::{GameTime, Score};
use chase_me::widgets::{button_text, decimal, key_to_string, score_line, update_score, Key};

#[test]
fn digits_and_letters_are_named_by_themselves() {
    assert_eq!(key_to_string(Key::Digit1), "1");
    assert_eq!(key_to_string(Key::Digit9), "9");
    assert_eq!(key_to_string(Key::Digit0), "0");
    assert_eq!(key_to_string(Key::KeyA), "A");
    assert_eq!(key_to_string(Key::KeyM), "M");
    assert_eq!(key_to_string(Key::KeyZ), "Z");
}

#[test]
fn the_other_keys_have_short_names() {
    assert_eq!(key_to_string(Key::Escape), "Esc");
    assert_eq!(key_to_string(Key::F1), "F1");
    assert_eq!(key_to_string(Key::F10), "F10");
    assert_eq!(key_to_string(Key::F12), "F12");
    assert_eq!(key_to_string(Key::Insert), "Ins");
    assert_eq!(key_to_string(Key::Delete), "Del");
    assert_eq!(key_to_string(Key::Home), "Home");
    assert_eq!(key_to_string(Key::End), "End");
    assert_eq!(key_to_string(Key::PageUp), "PgUp");
    assert_eq!(key_to_string(Key::PageDown), "PgDn");
    assert_eq!(key_to_string(Key::ArrowUp), "\u{2191}");
    assert_eq!(key_to_string(Key::ArrowDown), "\u{2193}");
    assert_eq!(key_to_string(Key::ArrowLeft), "\u{2190}");
    assert_eq!(key_to_string(Key::ArrowRight), "\u{2192}");
    assert_eq!(key_to_string(Key::Space), "Space");
    assert_eq!(key_to_string(Key::Backspace), "Backspace");
    assert_eq!(key_to_string(Key::Enter), "Enter");
    assert_eq!(key_to_string(Key::Tab), "Tab");
    assert_eq!(key_to_string(Key::CapsLock), "Caps");
    assert_eq!(key_to_string(Key::ShiftLeft), "Shift");
    assert_eq!(key_to_string(Key::ShiftRight), "Shift");
    assert_eq!(key_to_string(Key::ControlLeft), "Ctrl");
    assert_eq!(key_to_string(Key::ControlRight), "Ctrl");
    assert_eq!(key_to_string(Key::AltLeft), "Alt");
    assert_eq!(key_to_string(Key::AltRight), "Alt");
    assert_eq!(key_to_string(Key::ContextMenu), "Menu");
    assert_eq!(key_to_string(Key::Other), "???");
}

#[test]
fn a_button_names_its_key_in_brackets() {
    assert_eq!(button_text("Play", Some(Key::KeyP)), "Play (P)");
    assert_eq!(button_text("Back", Some(Key::Escape)), "Back (Esc)");
    assert_eq!(button_text("Start", Some(Key::Space)), "Start (Space)");
    assert_eq!(button_text("Quit", None), "Quit");
    assert_eq!(button_text("", Some(Key::Other)), " (???)");
}

#[test]
fn numbers_in_decimal() {
    assert_eq!(decimal(0), "0");
    assert_eq!(decimal(7), "7");
    assert_eq!(decimal(10), "10");
    assert_eq!(decimal(1_234_567_890), "1234567890");
    assert_eq!(decimal(u64::MAX), "18446744073709551615");
}

#[test]
fn the_score_line_of_the_summary() {
    assert_eq!(score_line(0), "Your score: 0");
    assert_eq!(score_line(130), "Your score: 130");
    assert_eq!(score_line(u32::MAX), "Your score: 4294967295");
}

#[test]
fn the_line_that_shows_score_and_time() {
    assert_eq!(update_score(&Score(0), &GameTime { time: 0 }), "Score: 0 | Runtime: 0.0s");
    assert_eq!(
        update_score(&Score(130_999), &GameTime { time: 12_340 }),
        "Score: 130 | Runtime: 12.3s"
    );
    assert_eq!(
        update_score(&Score(1_000), &GameTime { time: 12_350 }),
        "Score: 1 | Runtime: 12.4s"
    );
    assert_eq!(
        update_score(&Score(-5), &GameTime { time: 59_999 }),
        "Score: 0 | Runtime: 60.0s"
    );
}
