use keyboard_bridge::chord::ChordAction;
use keyboard_bridge::key::{KeyCode, KeyEvent, ModifierKey, RegularKey};
use keyboard_bridge::keyboard::Keyboard;

fn press(kb: &mut Keyboard, key: KeyCode) -> Option<ChordAction> {
    kb.process_event(KeyEvent::Press, key)
}

fn release(kb: &mut Keyboard, key: KeyCode) -> Option<ChordAction> {
    kb.process_event(KeyEvent::Release, key)
}

fn start() -> KeyCode {
    KeyCode::Regular(RegularKey::Enter)
}

#[test]
fn quit_chord_fires_exactly_after_the_sixth_key() {
    let mut kb = Keyboard::new();
    assert_eq!(press(&mut kb, start()), None);
    assert_eq!(release(&mut kb, start()), None);
    let sequence = [
        KeyCode::Modifier(ModifierKey::LeftShift),
        KeyCode::Regular(RegularKey::Grave),
        KeyCode::Regular(RegularKey::Period),
        KeyCode::Regular(RegularKey::Backspace),
        KeyCode::Regular(RegularKey::Backspace),
    ];
    for key in sequence {
        assert_eq!(press(&mut kb, key), None);
        assert_eq!(release(&mut kb, key), None);
    }
    // only the sixth and last chord key completes the sequence
    let last = KeyCode::Regular(RegularKey::Backspace);
    assert_eq!(press(&mut kb, last), Some(ChordAction::Quit));
    // and it fires exactly once: the next press finds the sequence spent
    assert_eq!(release(&mut kb, last), None);
    assert_eq!(press(&mut kb, KeyCode::Regular(RegularKey::A)), None);
    assert_eq!(kb.chord_length, 0);
}

#[test]
fn right_shift_canonicalizes_like_left_shift() {
    let mut kb = Keyboard::new();
    press(&mut kb, start());
    assert_eq!(press(&mut kb, KeyCode::Modifier(ModifierKey::RightShift)), None);
    // the stored buffer is replaced with the canonical form
    assert_eq!(kb.chord_buffer, KeyCode::Modifier(ModifierKey::EitherShift));
    assert_eq!(kb.chord_length, 2);
    assert_eq!(kb.possible_chords.len(), 1);
}

#[test]
fn start_key_rearms_mid_chord() {
    let mut kb = Keyboard::new();
    press(&mut kb, start());
    press(&mut kb, KeyCode::Modifier(ModifierKey::LeftShift));
    press(&mut kb, KeyCode::Regular(RegularKey::Grave));
    assert_eq!(kb.chord_length, 3);
    // the start key discards the partial match and re-arms
    assert_eq!(press(&mut kb, start()), None);
    assert_eq!(kb.chord_length, 1);
    assert_eq!(kb.possible_chords.len(), 1);
    // the full sequence still completes afterwards
    let sequence = [
        KeyCode::Modifier(ModifierKey::LeftShift),
        KeyCode::Regular(RegularKey::Grave),
        KeyCode::Regular(RegularKey::Period),
        KeyCode::Regular(RegularKey::Backspace),
        KeyCode::Regular(RegularKey::Backspace),
    ];
    for key in sequence {
        assert_eq!(press(&mut kb, key), None);
    }
    assert_eq!(press(&mut kb, KeyCode::Regular(RegularKey::Backspace)), Some(ChordAction::Quit));
}

#[test]
fn mismatch_empties_candidates_and_resets() {
    let mut kb = Keyboard::new();
    press(&mut kb, start());
    assert_eq!(press(&mut kb, KeyCode::Regular(RegularKey::A)), None);
    assert_eq!(kb.possible_chords.len(), 0);
    assert_eq!(kb.chord_length, 0);
    // a later unrelated press, without a new start key, matches nothing
    assert_eq!(press(&mut kb, KeyCode::Regular(RegularKey::Grave)), None);
    assert_eq!(kb.possible_chords.len(), 0);
    assert_eq!(kb.chord_length, 0);
}

#[test]
fn releases_do_not_abort_a_match_in_progress() {
    let mut kb = Keyboard::new();
    press(&mut kb, start());
    press(&mut kb, KeyCode::Modifier(ModifierKey::LeftShift));
    assert_eq!(kb.chord_length, 2);
    assert_eq!(kb.possible_chords.len(), 1);
    assert_eq!(release(&mut kb, KeyCode::Modifier(ModifierKey::LeftShift)), None);
    assert_eq!(release(&mut kb, start()), None);
    // matched length and candidate list are unchanged across the releases
    assert_eq!(kb.chord_length, 2);
    assert_eq!(kb.possible_chords.len(), 1);
}

#[test]
fn unknown_key_press_mid_chord_is_ignored_like_a_release() {
    let mut kb = Keyboard::new();
    press(&mut kb, start());
    press(&mut kb, KeyCode::Modifier(ModifierKey::LeftShift));
    // an unrecognized key leaves only the sentinel in the buffer
    assert_eq!(press(&mut kb, KeyCode::Unknown), None);
    assert_eq!(kb.chord_length, 2);
    assert_eq!(kb.possible_chords.len(), 1);
}

#[test]
fn idle_matcher_ignores_ordinary_keys() {
    let mut kb = Keyboard::new();
    assert_eq!(press(&mut kb, KeyCode::Regular(RegularKey::Grave)), None);
    assert_eq!(kb.chord_length, 0);
    assert_eq!(kb.possible_chords.len(), 0);
}

#[test]
fn handle_chord_maps_quit_and_unhandled() {
    let kb = Keyboard::new();
    let quit = vec![
        KeyCode::Modifier(ModifierKey::EitherShift),
        KeyCode::Regular(RegularKey::Grave),
        KeyCode::Regular(RegularKey::Period),
        KeyCode::Regular(RegularKey::Backspace),
        KeyCode::Regular(RegularKey::Backspace),
        KeyCode::Regular(RegularKey::Backspace),
    ];
    assert_eq!(kb.handle_chord(&quit), ChordAction::Quit);
    let other = vec![KeyCode::Regular(RegularKey::A)];
    assert_eq!(kb.handle_chord(&other), ChordAction::Unhandled);
}

#[test]
fn repeats_do_not_advance_a_match() {
    let mut kb = Keyboard::new();
    press(&mut kb, start());
    press(&mut kb, KeyCode::Modifier(ModifierKey::LeftShift));
    // a repeat leaves the buffer holding the stale canonical shift, which
    // the matcher re-evaluates at the next position; nothing fires, and the
    // mismatch there returns the matcher to idle
    assert_eq!(kb.process_event(KeyEvent::Repeat, KeyCode::Modifier(ModifierKey::LeftShift)), None);
    assert_eq!(kb.possible_chords.len(), 0);
    assert_eq!(kb.chord_length, 0);
}
