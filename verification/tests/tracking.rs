use keyboard_bridge::key::{KeyCode, KeyEvent, ModifierKey, RegularKey};
use keyboard_bridge::keyboard::Keyboard;

#[test]
fn press_appends_without_dedup() {
    let mut kb = Keyboard::new();
    kb.process_key_events(KeyEvent::Press, KeyCode::Regular(RegularKey::A));
    kb.process_key_events(KeyEvent::Press, KeyCode::Regular(RegularKey::A));
    kb.process_key_events(KeyEvent::Press, KeyCode::Regular(RegularKey::B));
    assert_eq!(kb.keys, vec![RegularKey::A, RegularKey::A, RegularKey::B]);
    assert_eq!(kb.chord_buffer, KeyCode::Regular(RegularKey::B));
}

#[test]
fn release_removes_exactly_first_occurrence() {
    let mut kb = Keyboard::new();
    kb.process_key_events(KeyEvent::Press, KeyCode::Regular(RegularKey::A));
    kb.process_key_events(KeyEvent::Press, KeyCode::Regular(RegularKey::B));
    kb.process_key_events(KeyEvent::Press, KeyCode::Regular(RegularKey::A));
    kb.process_key_events(KeyEvent::Release, KeyCode::Regular(RegularKey::A));
    assert_eq!(kb.keys, vec![RegularKey::B, RegularKey::A]);
    assert_eq!(kb.chord_buffer, KeyCode::Unknown);
}

#[test]
fn release_of_untracked_key_changes_nothing_but_buffer() {
    let mut kb = Keyboard::new();
    kb.process_key_events(KeyEvent::Press, KeyCode::Regular(RegularKey::A));
    kb.process_key_events(KeyEvent::Release, KeyCode::Regular(RegularKey::B));
    assert_eq!(kb.keys, vec![RegularKey::A]);
    assert_eq!(kb.chord_buffer, KeyCode::Unknown);
}

#[test]
fn modifier_release_removes_first_occurrence() {
    let mut kb = Keyboard::new();
    kb.process_key_events(KeyEvent::Press, KeyCode::Modifier(ModifierKey::LeftShift));
    kb.process_key_events(KeyEvent::Press, KeyCode::Modifier(ModifierKey::LeftCtrl));
    kb.process_key_events(KeyEvent::Press, KeyCode::Modifier(ModifierKey::LeftShift));
    kb.process_key_events(KeyEvent::Release, KeyCode::Modifier(ModifierKey::LeftShift));
    assert_eq!(kb.modifiers, vec![ModifierKey::LeftCtrl, ModifierKey::LeftShift]);
    assert_eq!(kb.keys, Vec::<RegularKey>::new());
}

#[test]
fn repeat_changes_nothing() {
    let mut kb = Keyboard::new();
    kb.process_key_events(KeyEvent::Press, KeyCode::Regular(RegularKey::A));
    kb.process_key_events(KeyEvent::Repeat, KeyCode::Regular(RegularKey::A));
    assert_eq!(kb.keys, vec![RegularKey::A]);
    assert_eq!(kb.chord_buffer, KeyCode::Regular(RegularKey::A));
}

#[test]
fn unknown_press_is_tracked_nowhere_but_in_buffer() {
    let mut kb = Keyboard::new();
    kb.process_key_events(KeyEvent::Press, KeyCode::Unknown);
    assert!(kb.keys.is_empty());
    assert!(kb.modifiers.is_empty());
    assert_eq!(kb.chord_buffer, KeyCode::Unknown);
}

#[test]
fn seven_keys_tracked_even_when_report_drops_one() {
    let mut kb = Keyboard::new();
    let keys = [
        RegularKey::A,
        RegularKey::B,
        RegularKey::C,
        RegularKey::D,
        RegularKey::E,
        RegularKey::F,
        RegularKey::G,
    ];
    for k in keys {
        kb.process_key_events(KeyEvent::Press, KeyCode::Regular(k));
    }
    assert_eq!(kb.keys.len(), 7);
    let event = kb.usb_key_event();
    assert!(event.overflowed());
    assert_eq!(event.to_report(), [0, 0, 0x04, 0x05, 0x06, 0x07, 0x08, 0x09]);
    // the seventh key is still tracked: releasing one of the first six
    // brings it into the report
    kb.process_key_events(KeyEvent::Release, KeyCode::Regular(RegularKey::A));
    assert_eq!(kb.usb_key_event().to_report(), [0, 0, 0x05, 0x06, 0x07, 0x08, 0x09, 0x0a]);
}
