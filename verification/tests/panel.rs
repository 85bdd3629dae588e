use keyboard_debugger::event::{describe, InputEvent};
use keyboard_debugger::panel::KeyboardDebugger;

fn key_a_pressed() -> InputEvent {
    InputEvent::Key { scancode: 30, pressed: true, key_code: Some(65), synthetic: false }
}

fn char_a() -> InputEvent {
    InputEvent::Character { ch: 'a' }
}

#[test]
fn new_panel_is_empty() {
    let panel = KeyboardDebugger::new();
    assert_eq!(panel.log_len(), 0);
    assert_eq!(panel.text().as_str(), "");
}

#[test]
fn describe_key_pressed() {
    let s = describe(&key_a_pressed());
    assert_eq!(
        s,
        "KeyboardInput { scancode: 30, state: Pressed, key_code: Some(65), synthetic: false }"
    );
}

#[test]
fn describe_key_released_synthetic() {
    let e = InputEvent::Key { scancode: 4070, pressed: false, key_code: None, synthetic: true };
    assert_eq!(
        describe(&e),
        "KeyboardInput { scancode: 4070, state: Released, key_code: None, synthetic: true }"
    );
}

#[test]
fn describe_key_scancode_zero() {
    let e = InputEvent::Key { scancode: 0, pressed: true, key_code: Some(0), synthetic: false };
    assert_eq!(
        describe(&e),
        "KeyboardInput { scancode: 0, state: Pressed, key_code: Some(0), synthetic: false }"
    );
}

#[test]
fn describe_character() {
    assert_eq!(describe(&char_a()), "ReceivedCharacter('a')");
}

#[test]
fn describe_ime_events() {
    assert_eq!(describe(&InputEvent::ImeEnabled), "Ime(Enabled)");
    assert_eq!(
        describe(&InputEvent::ImePreedit { text: String::from("か") }),
        "Ime(Preedit(\"か\"))"
    );
    assert_eq!(
        describe(&InputEvent::ImeCommit { text: String::from("漢字") }),
        "Ime(Commit(\"漢字\"))"
    );
    assert_eq!(describe(&InputEvent::ImeDisabled), "Ime(Disabled)");
}

#[test]
fn feed_is_order_preserving_and_lossless() {
    let events = vec![
        key_a_pressed(),
        char_a(),
        InputEvent::ImeCommit { text: String::from("あ") },
        key_a_pressed(),
    ];
    let mut panel = KeyboardDebugger::new();
    for e in &events {
        panel.feed(e);
    }
    assert_eq!(panel.log_len(), events.len());
    for (i, e) in events.iter().enumerate() {
        assert_eq!(panel.log_entry(i), &describe(e));
    }
}

#[test]
fn feed_all_appends_in_order() {
    let mut panel = KeyboardDebugger::new();
    panel.feed(&InputEvent::ImeEnabled);
    let more = vec![char_a(), InputEvent::ImeDisabled];
    panel.feed_all(&more);
    assert_eq!(panel.log_len(), 3);
    assert_eq!(panel.log_entry(0), "Ime(Enabled)");
    assert_eq!(panel.log_entry(1), "ReceivedCharacter('a')");
    assert_eq!(panel.log_entry(2), "Ime(Disabled)");
}

#[test]
fn clear_empties_log_and_keeps_text() {
    let mut panel = KeyboardDebugger::new();
    panel.set_text(String::from("typing"));
    panel.feed(&key_a_pressed());
    panel.feed(&char_a());
    panel.clear();
    assert_eq!(panel.log_len(), 0);
    assert_eq!(panel.text().as_str(), "typing");
}

#[test]
fn clear_is_idempotent() {
    let mut panel = KeyboardDebugger::new();
    panel.set_text(String::from("keep"));
    panel.feed(&key_a_pressed());
    panel.clear();
    let len_once = panel.log_len();
    let text_once = panel.text().clone();
    panel.clear();
    assert_eq!(panel.log_len(), len_once);
    assert_eq!(panel.log_len(), 0);
    assert_eq!(panel.text(), &text_once);
}

#[test]
fn zero_events_leave_log_empty() {
    let mut panel = KeyboardDebugger::new();
    let none: Vec<InputEvent> = vec![];
    panel.feed_all(&none);
    assert_eq!(panel.log_len(), 0);
}

#[test]
fn key_then_character_scenario() {
    let mut panel = KeyboardDebugger::new();
    panel.feed(&key_a_pressed());
    panel.feed(&char_a());
    assert_eq!(panel.log_len(), 2);
    assert!(panel.log_entry(0).contains("KeyboardInput"));
    assert!(panel.log_entry(0).contains("Pressed"));
    assert!(panel.log_entry(1).contains("ReceivedCharacter"));
}

#[test]
fn feed_after_clear_scenario() {
    let mut panel = KeyboardDebugger::new();
    panel.feed(&key_a_pressed());
    panel.feed(&char_a());
    panel.feed(&InputEvent::ImeEnabled);
    assert_eq!(panel.log_len(), 3);
    panel.clear();
    assert_eq!(panel.log_len(), 0);
    let late = InputEvent::ImeCommit { text: String::from("z") };
    panel.feed(&late);
    assert_eq!(panel.log_len(), 1);
    assert_eq!(panel.log_entry(0), &describe(&late));
}

#[test]
fn clear_keeps_typed_text() {
    let mut panel = KeyboardDebugger::new();
    panel.set_text(String::from("hello"));
    panel.clear();
    assert_eq!(panel.text().as_str(), "hello");
}

#[test]
fn repeats_are_recorded() {
    let mut panel = KeyboardDebugger::new();
    panel.feed(&char_a());
    panel.feed(&char_a());
    assert_eq!(panel.log_len(), 2);
    assert_eq!(panel.log_entry(0), panel.log_entry(1));
}
