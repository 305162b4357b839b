use keyboard_bridge::key::{ModifierKey, RegularKey};
use keyboard_bridge::report::USBKeyEvent;

#[test]
fn report_empty_key_set() {
    let event = USBKeyEvent { modifiers: vec![], keys: vec![] };
    assert_eq!(event.to_report(), [0u8; 8]);
    assert!(!event.overflowed());
}

#[test]
fn report_keys_in_press_order() {
    let event = USBKeyEvent {
        modifiers: vec![],
        keys: vec![RegularKey::A, RegularKey::B, RegularKey::C],
    };
    assert_eq!(event.to_report(), [0, 0, 0x04, 0x05, 0x06, 0, 0, 0]);
}

#[test]
fn report_modifier_byte_is_or_of_bits() {
    let event = USBKeyEvent {
        modifiers: vec![ModifierKey::LeftShift, ModifierKey::RightCtrl],
        keys: vec![],
    };
    assert_eq!(event.to_report()[0], 0x02 | 0x10);
}

#[test]
fn report_modifier_byte_ignores_order_and_duplicates() {
    let one = USBKeyEvent {
        modifiers: vec![ModifierKey::LeftAlt, ModifierKey::RightSuper, ModifierKey::LeftAlt],
        keys: vec![],
    };
    let other = USBKeyEvent {
        modifiers: vec![ModifierKey::RightSuper, ModifierKey::LeftAlt],
        keys: vec![],
    };
    assert_eq!(one.to_report()[0], other.to_report()[0]);
    assert_eq!(one.to_report()[0], 0x04 | 0x80);
}

#[test]
fn report_drops_keys_beyond_the_sixth() {
    let event = USBKeyEvent {
        modifiers: vec![],
        keys: vec![
            RegularKey::A,
            RegularKey::B,
            RegularKey::C,
            RegularKey::D,
            RegularKey::E,
            RegularKey::F,
            RegularKey::G,
        ],
    };
    assert_eq!(event.to_report(), [0, 0, 0x04, 0x05, 0x06, 0x07, 0x08, 0x09]);
    assert!(event.overflowed());
}

#[test]
fn report_six_keys_fit_exactly() {
    let event = USBKeyEvent {
        modifiers: vec![],
        keys: vec![
            RegularKey::Q,
            RegularKey::W,
            RegularKey::E,
            RegularKey::R,
            RegularKey::T,
            RegularKey::Y,
        ],
    };
    assert_eq!(event.to_report(), [0, 0, 0x14, 0x1a, 0x08, 0x15, 0x17, 0x1c]);
    assert!(!event.overflowed());
}
