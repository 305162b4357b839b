use keyboard_bridge::key::{
    classify, key_event_from_value, modifier_bit, usage_code, canonical_key, KeyCode, KeyEvent,
    ModifierKey, RegularKey,
};

#[test]
fn classify_maps_modifiers() {
    assert_eq!(classify(29), KeyCode::Modifier(ModifierKey::LeftCtrl));
    assert_eq!(classify(42), KeyCode::Modifier(ModifierKey::LeftShift));
    assert_eq!(classify(54), KeyCode::Modifier(ModifierKey::RightShift));
    assert_eq!(classify(56), KeyCode::Modifier(ModifierKey::LeftAlt));
    assert_eq!(classify(97), KeyCode::Modifier(ModifierKey::RightCtrl));
    assert_eq!(classify(100), KeyCode::Modifier(ModifierKey::RightAlt));
    assert_eq!(classify(125), KeyCode::Modifier(ModifierKey::LeftSuper));
    assert_eq!(classify(126), KeyCode::Modifier(ModifierKey::RightSuper));
}

#[test]
fn classify_maps_regular_keys() {
    assert_eq!(classify(28), KeyCode::Regular(RegularKey::Enter));
    assert_eq!(classify(41), KeyCode::Regular(RegularKey::Grave));
    assert_eq!(classify(52), KeyCode::Regular(RegularKey::Period));
    assert_eq!(classify(14), KeyCode::Regular(RegularKey::Backspace));
    assert_eq!(classify(30), KeyCode::Regular(RegularKey::A));
    assert_eq!(classify(57), KeyCode::Regular(RegularKey::Space));
}

#[test]
fn classify_falls_back_to_unknown() {
    assert_eq!(classify(0), KeyCode::Unknown);
    assert_eq!(classify(55), KeyCode::Unknown); // keypad asterisk is not mapped
    assert_eq!(classify(9999), KeyCode::Unknown);
}

#[test]
fn event_kinds_from_raw_values() {
    assert_eq!(key_event_from_value(0), KeyEvent::Release);
    assert_eq!(key_event_from_value(1), KeyEvent::Press);
    assert_eq!(key_event_from_value(2), KeyEvent::Repeat);
    // out-of-range values fall back to a release
    assert_eq!(key_event_from_value(3), KeyEvent::Release);
    assert_eq!(key_event_from_value(-1), KeyEvent::Release);
}

#[test]
fn modifier_bits_are_the_hid_bit_positions() {
    assert_eq!(modifier_bit(ModifierKey::LeftCtrl), 0x01);
    assert_eq!(modifier_bit(ModifierKey::LeftShift), 0x02);
    assert_eq!(modifier_bit(ModifierKey::LeftAlt), 0x04);
    assert_eq!(modifier_bit(ModifierKey::LeftSuper), 0x08);
    assert_eq!(modifier_bit(ModifierKey::RightCtrl), 0x10);
    assert_eq!(modifier_bit(ModifierKey::RightShift), 0x20);
    assert_eq!(modifier_bit(ModifierKey::RightAlt), 0x40);
    assert_eq!(modifier_bit(ModifierKey::RightSuper), 0x80);
}

#[test]
fn usage_codes_match_the_hid_table() {
    assert_eq!(usage_code(RegularKey::A), 0x04);
    assert_eq!(usage_code(RegularKey::Num1), 0x1e);
    assert_eq!(usage_code(RegularKey::Enter), 0x28);
    assert_eq!(usage_code(RegularKey::Grave), 0x35);
    assert_eq!(usage_code(RegularKey::Period), 0x37);
    assert_eq!(usage_code(RegularKey::Backspace), 0x2a);
    assert_eq!(usage_code(RegularKey::F12), 0x45);
    assert_eq!(usage_code(RegularKey::Up), 0x52);
}

#[test]
fn canonicalization_collapses_sides_only() {
    assert_eq!(
        canonical_key(KeyCode::Modifier(ModifierKey::LeftCtrl)),
        KeyCode::Modifier(ModifierKey::EitherCtrl)
    );
    assert_eq!(
        canonical_key(KeyCode::Modifier(ModifierKey::RightSuper)),
        KeyCode::Modifier(ModifierKey::EitherSuper)
    );
    assert_eq!(
        canonical_key(KeyCode::Modifier(ModifierKey::EitherShift)),
        KeyCode::Modifier(ModifierKey::EitherShift)
    );
    assert_eq!(
        canonical_key(KeyCode::Regular(RegularKey::A)),
        KeyCode::Regular(RegularKey::A)
    );
    assert_eq!(canonical_key(KeyCode::Unknown), KeyCode::Unknown);
}
