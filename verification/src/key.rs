//! Semantic key codes: the eight physical modifiers (plus their canonical
//! "Either" match targets), the regular keys with their USB HID usage codes,
//! the press/release/repeat event kinds, and the classifier that maps a
//! device-native scan code to a semantic key code.

use vstd::prelude::*;

verus! {

/// One of the eight physical modifier keys, or one of the four canonical
/// "Either" values. The "Either" values are match targets for chord
/// sequences only; a raw key press never classifies to one.
#[derive(Clone, Copy, Debug, PartialEq, Eq, Structural)]
pub enum ModifierKey {
    LeftCtrl,
    LeftShift,
    LeftAlt,
    LeftSuper,
    RightCtrl,
    RightShift,
    RightAlt,
    RightSuper,
    EitherCtrl,
    EitherShift,
    EitherAlt,
    EitherSuper,
}

/// The bit this modifier contributes to byte 0 of the HID report.
/// An "Either" value carries the union of its left and right bits; it never
/// occurs in the pressed-modifier list, so the union is only a total default.
pub open spec fn spec_modifier_bit(m: ModifierKey) -> u8 {
    match m {
        ModifierKey::LeftCtrl => 0x01,
        ModifierKey::LeftShift => 0x02,
        ModifierKey::LeftAlt => 0x04,
        ModifierKey::LeftSuper => 0x08,
        ModifierKey::RightCtrl => 0x10,
        ModifierKey::RightShift => 0x20,
        ModifierKey::RightAlt => 0x40,
        ModifierKey::RightSuper => 0x80,
        ModifierKey::EitherCtrl => 0x11,
        ModifierKey::EitherShift => 0x22,
        ModifierKey::EitherAlt => 0x44,
        ModifierKey::EitherSuper => 0x88,
    }
}

pub fn modifier_bit(m: ModifierKey) -> (r: u8)
    ensures
        r == spec_modifier_bit(m),
{
    match m {
        ModifierKey::LeftCtrl => 0x01,
        ModifierKey::LeftShift => 0x02,
        ModifierKey::LeftAlt => 0x04,
        ModifierKey::LeftSuper => 0x08,
        ModifierKey::RightCtrl => 0x10,
        ModifierKey::RightShift => 0x20,
        ModifierKey::RightAlt => 0x40,
        ModifierKey::RightSuper => 0x80,
        ModifierKey::EitherCtrl => 0x11,
        ModifierKey::EitherShift => 0x22,
        ModifierKey::EitherAlt => 0x44,
        ModifierKey::EitherSuper => 0x88,
    }
}

/// A non-modifier key, each with a fixed USB HID usage code.
#[derive(Clone, Copy, Debug, PartialEq, Eq, Structural)]
pub enum RegularKey {
    A,
    B,
    C,
    D,
    E,
    F,
    G,
    H,
    I,
    J,
    K,
    L,
    M,
    N,
    O,
    P,
    Q,
    R,
    S,
    T,
    U,
    V,
    W,
    X,
    Y,
    Z,
    Num1,
    Num2,
    Num3,
    Num4,
    Num5,
    Num6,
    Num7,
    Num8,
    Num9,
    Num0,
    Enter,
    Escape,
    Backspace,
    Tab,
    Space,
    Minus,
    Equal,
    LeftBrace,
    RightBrace,
    Backslash,
    Semicolon,
    Apostrophe,
    Grave,
    Comma,
    Period,
    Slash,
    CapsLock,
    F1,
    F2,
    F3,
    F4,
    F5,
    F6,
    F7,
    F8,
    F9,
    F10,
    F11,
    F12,
    Insert,
    Home,
    PageUp,
    Delete,
    End,
    PageDown,
    Right,
    Left,
    Down,
    Up,
}

/// The USB HID usage code of a regular key (usage page 0x07; 0 means
/// "no key", so every real key maps to a nonzero code).
pub open spec fn spec_usage_code(k: RegularKey) -> u8 {
    match k {
        RegularKey::A => 0x04,
        RegularKey::B => 0x05,
        RegularKey::C => 0x06,
        RegularKey::D => 0x07,
        RegularKey::E => 0x08,
        RegularKey::F => 0x09,
        RegularKey::G => 0x0a,
        RegularKey::H => 0x0b,
        RegularKey::I => 0x0c,
        RegularKey::J => 0x0d,
        RegularKey::K => 0x0e,
        RegularKey::L => 0x0f,
        RegularKey::M => 0x10,
        RegularKey::N => 0x11,
        RegularKey::O => 0x12,
        RegularKey::P => 0x13,
        RegularKey::Q => 0x14,
        RegularKey::R => 0x15,
        RegularKey::S => 0x16,
        RegularKey::T => 0x17,
        RegularKey::U => 0x18,
        RegularKey::V => 0x19,
        RegularKey::W => 0x1a,
        RegularKey::X => 0x1b,
        RegularKey::Y => 0x1c,
        RegularKey::Z => 0x1d,
        RegularKey::Num1 => 0x1e,
        RegularKey::Num2 => 0x1f,
        RegularKey::Num3 => 0x20,
        RegularKey::Num4 => 0x21,
        RegularKey::Num5 => 0x22,
        RegularKey::Num6 => 0x23,
        RegularKey::Num7 => 0x24,
        RegularKey::Num8 => 0x25,
        RegularKey::Num9 => 0x26,
        RegularKey::Num0 => 0x27,
        RegularKey::Enter => 0x28,
        RegularKey::Escape => 0x29,
        RegularKey::Backspace => 0x2a,
        RegularKey::Tab => 0x2b,
        RegularKey::Space => 0x2c,
        RegularKey::Minus => 0x2d,
        RegularKey::Equal => 0x2e,
        RegularKey::LeftBrace => 0x2f,
        RegularKey::RightBrace => 0x30,
        RegularKey::Backslash => 0x31,
        RegularKey::Semicolon => 0x33,
        RegularKey::Apostrophe => 0x34,
        RegularKey::Grave => 0x35,
        RegularKey::Comma => 0x36,
        RegularKey::Period => 0x37,
        RegularKey::Slash => 0x38,
        RegularKey::CapsLock => 0x39,
        RegularKey::F1 => 0x3a,
        RegularKey::F2 => 0x3b,
        RegularKey::F3 => 0x3c,
        RegularKey::F4 => 0x3d,
        RegularKey::F5 => 0x3e,
        RegularKey::F6 => 0x3f,
        RegularKey::F7 => 0x40,
        RegularKey::F8 => 0x41,
        RegularKey::F9 => 0x42,
        RegularKey::F10 => 0x43,
        RegularKey::F11 => 0x44,
        RegularKey::F12 => 0x45,
        RegularKey::Insert => 0x49,
        RegularKey::Home => 0x4a,
        RegularKey::PageUp => 0x4b,
        RegularKey::Delete => 0x4c,
        RegularKey::End => 0x4d,
        RegularKey::PageDown => 0x4e,
        RegularKey::Right => 0x4f,
        RegularKey::Left => 0x50,
        RegularKey::Down => 0x51,
        RegularKey::Up => 0x52,
    }
}

pub fn usage_code(k: RegularKey) -> (r: u8)
    ensures
        r == spec_usage_code(k),
{
    match k {
        RegularKey::A => 0x04,
        RegularKey::B => 0x05,
        RegularKey::C => 0x06,
        RegularKey::D => 0x07,
        RegularKey::E => 0x08,
        RegularKey::F => 0x09,
        RegularKey::G => 0x0a,
        RegularKey::H => 0x0b,
        RegularKey::I => 0x0c,
        RegularKey::J => 0x0d,
        RegularKey::K => 0x0e,
        RegularKey::L => 0x0f,
        RegularKey::M => 0x10,
        RegularKey::N => 0x11,
        RegularKey::O => 0x12,
        RegularKey::P => 0x13,
        RegularKey::Q => 0x14,
        RegularKey::R => 0x15,
        RegularKey::S => 0x16,
        RegularKey::T => 0x17,
        RegularKey::U => 0x18,
        RegularKey::V => 0x19,
        RegularKey::W => 0x1a,
        RegularKey::X => 0x1b,
        RegularKey::Y => 0x1c,
        RegularKey::Z => 0x1d,
        RegularKey::Num1 => 0x1e,
        RegularKey::Num2 => 0x1f,
        RegularKey::Num3 => 0x20,
        RegularKey::Num4 => 0x21,
        RegularKey::Num5 => 0x22,
        RegularKey::Num6 => 0x23,
        RegularKey::Num7 => 0x24,
        RegularKey::Num8 => 0x25,
        RegularKey::Num9 => 0x26,
        RegularKey::Num0 => 0x27,
        RegularKey::Enter => 0x28,
        RegularKey::Escape => 0x29,
        RegularKey::Backspace => 0x2a,
        RegularKey::Tab => 0x2b,
        RegularKey::Space => 0x2c,
        RegularKey::Minus => 0x2d,
        RegularKey::Equal => 0x2e,
        RegularKey::LeftBrace => 0x2f,
        RegularKey::RightBrace => 0x30,
        RegularKey::Backslash => 0x31,
        RegularKey::Semicolon => 0x33,
        RegularKey::Apostrophe => 0x34,
        RegularKey::Grave => 0x35,
        RegularKey::Comma => 0x36,
        RegularKey::Period => 0x37,
        RegularKey::Slash => 0x38,
        RegularKey::CapsLock => 0x39,
        RegularKey::F1 => 0x3a,
        RegularKey::F2 => 0x3b,
        RegularKey::F3 => 0x3c,
        RegularKey::F4 => 0x3d,
        RegularKey::F5 => 0x3e,
        RegularKey::F6 => 0x3f,
        RegularKey::F7 => 0x40,
        RegularKey::F8 => 0x41,
        RegularKey::F9 => 0x42,
        RegularKey::F10 => 0x43,
        RegularKey::F11 => 0x44,
        RegularKey::F12 => 0x45,
        RegularKey::Insert => 0x49,
        RegularKey::Home => 0x4a,
        RegularKey::PageUp => 0x4b,
        RegularKey::Delete => 0x4c,
        RegularKey::End => 0x4d,
        RegularKey::PageDown => 0x4e,
        RegularKey::Right => 0x4f,
        RegularKey::Left => 0x50,
        RegularKey::Down => 0x51,
        RegularKey::Up => 0x52,
    }
}

/// A classified key. `Unknown` serves both as the classification of an
/// unmapped scan code and as the chord buffer's "nothing pending" sentinel.
#[derive(Clone, Copy, Debug, PartialEq, Eq, Structural)]
pub enum KeyCode {
    Modifier(ModifierKey),
    Regular(RegularKey),
    Unknown,
}

/// The kind of a key event as the input device reports it.
#[derive(Clone, Copy, Debug, PartialEq, Eq, Structural)]
pub enum KeyEvent {
    Release,
    Press,
    Repeat,
}

/// The event kind for a raw event value: 1 is a press and 2 a repeat;
/// everything else (0 and out-of-range values) falls back to a release.
pub open spec fn spec_key_event_from_value(value: i32) -> KeyEvent {
    if value == 1 {
        KeyEvent::Press
    } else if value == 2 {
        KeyEvent::Repeat
    } else {
        KeyEvent::Release
    }
}

pub fn key_event_from_value(value: i32) -> (e: KeyEvent)
    ensures
        e == spec_key_event_from_value(value),
{
    if value == 1 {
        KeyEvent::Press
    } else if value == 2 {
        KeyEvent::Repeat
    } else {
        KeyEvent::Release
    }
}

/// The semantic key for a device-native scan code (Linux input event codes);
/// unmapped codes classify to `Unknown`. Total, no failure path.
pub open spec fn spec_classify(code: u16) -> KeyCode {
    match code {
        1u16 => KeyCode::Regular(RegularKey::Escape),
        2u16 => KeyCode::Regular(RegularKey::Num1),
        3u16 => KeyCode::Regular(RegularKey::Num2),
        4u16 => KeyCode::Regular(RegularKey::Num3),
        5u16 => KeyCode::Regular(RegularKey::Num4),
        6u16 => KeyCode::Regular(RegularKey::Num5),
        7u16 => KeyCode::Regular(RegularKey::Num6),
        8u16 => KeyCode::Regular(RegularKey::Num7),
        9u16 => KeyCode::Regular(RegularKey::Num8),
        10u16 => KeyCode::Regular(RegularKey::Num9),
        11u16 => KeyCode::Regular(RegularKey::Num0),
        12u16 => KeyCode::Regular(RegularKey::Minus),
        13u16 => KeyCode::Regular(RegularKey::Equal),
        14u16 => KeyCode::Regular(RegularKey::Backspace),
        15u16 => KeyCode::Regular(RegularKey::Tab),
        16u16 => KeyCode::Regular(RegularKey::Q),
        17u16 => KeyCode::Regular(RegularKey::W),
        18u16 => KeyCode::Regular(RegularKey::E),
        19u16 => KeyCode::Regular(RegularKey::R),
        20u16 => KeyCode::Regular(RegularKey::T),
        21u16 => KeyCode::Regular(RegularKey::Y),
        22u16 => KeyCode::Regular(RegularKey::U),
        23u16 => KeyCode::Regular(RegularKey::I),
        24u16 => KeyCode::Regular(RegularKey::O),
        25u16 => KeyCode::Regular(RegularKey::P),
        26u16 => KeyCode::Regular(RegularKey::LeftBrace),
        27u16 => KeyCode::Regular(RegularKey::RightBrace),
        28u16 => KeyCode::Regular(RegularKey::Enter),
        29u16 => KeyCode::Modifier(ModifierKey::LeftCtrl),
        30u16 => KeyCode::Regular(RegularKey::A),
        31u16 => KeyCode::Regular(RegularKey::S),
        32u16 => KeyCode::Regular(RegularKey::D),
        33u16 => KeyCode::Regular(RegularKey::F),
        34u16 => KeyCode::Regular(RegularKey::G),
        35u16 => KeyCode::Regular(RegularKey::H),
        36u16 => KeyCode::Regular(RegularKey::J),
        37u16 => KeyCode::Regular(RegularKey::K),
        38u16 => KeyCode::Regular(RegularKey::L),
        39u16 => KeyCode::Regular(RegularKey::Semicolon),
        40u16 => KeyCode::Regular(RegularKey::Apostrophe),
        41u16 => KeyCode::Regular(RegularKey::Grave),
        42u16 => KeyCode::Modifier(ModifierKey::LeftShift),
        43u16 => KeyCode::Regular(RegularKey::Backslash),
        44u16 => KeyCode::Regular(RegularKey::Z),
        45u16 => KeyCode::Regular(RegularKey::X),
        46u16 => KeyCode::Regular(RegularKey::C),
        47u16 => KeyCode::Regular(RegularKey::V),
        48u16 => KeyCode::Regular(RegularKey::B),
        49u16 => KeyCode::Regular(RegularKey::N),
        50u16 => KeyCode::Regular(RegularKey::M),
        51u16 => KeyCode::Regular(RegularKey::Comma),
        52u16 => KeyCode::Regular(RegularKey::Period),
        53u16 => KeyCode::Regular(RegularKey::Slash),
        54u16 => KeyCode::Modifier(ModifierKey::RightShift),
        56u16 => KeyCode::Modifier(ModifierKey::LeftAlt),
        57u16 => KeyCode::Regular(RegularKey::Space),
        58u16 => KeyCode::Regular(RegularKey::CapsLock),
        59u16 => KeyCode::Regular(RegularKey::F1),
        60u16 => KeyCode::Regular(RegularKey::F2),
        61u16 => KeyCode::Regular(RegularKey::F3),
        62u16 => KeyCode::Regular(RegularKey::F4),
        63u16 => KeyCode::Regular(RegularKey::F5),
        64u16 => KeyCode::Regular(RegularKey::F6),
        65u16 => KeyCode::Regular(RegularKey::F7),
        66u16 => KeyCode::Regular(RegularKey::F8),
        67u16 => KeyCode::Regular(RegularKey::F9),
        68u16 => KeyCode::Regular(RegularKey::F10),
        87u16 => KeyCode::Regular(RegularKey::F11),
        88u16 => KeyCode::Regular(RegularKey::F12),
        97u16 => KeyCode::Modifier(ModifierKey::RightCtrl),
        100u16 => KeyCode::Modifier(ModifierKey::RightAlt),
        102u16 => KeyCode::Regular(RegularKey::Home),
        103u16 => KeyCode::Regular(RegularKey::Up),
        104u16 => KeyCode::Regular(RegularKey::PageUp),
        105u16 => KeyCode::Regular(RegularKey::Left),
        106u16 => KeyCode::Regular(RegularKey::Right),
        107u16 => KeyCode::Regular(RegularKey::End),
        108u16 => KeyCode::Regular(RegularKey::Down),
        109u16 => KeyCode::Regular(RegularKey::PageDown),
        110u16 => KeyCode::Regular(RegularKey::Insert),
        111u16 => KeyCode::Regular(RegularKey::Delete),
        125u16 => KeyCode::Modifier(ModifierKey::LeftSuper),
        126u16 => KeyCode::Modifier(ModifierKey::RightSuper),
        _ => KeyCode::Unknown,
    }
}

pub fn classify(code: u16) -> (k: KeyCode)
    ensures
        k == spec_classify(code),
{
    match code {
        1u16 => KeyCode::Regular(RegularKey::Escape),
        2u16 => KeyCode::Regular(RegularKey::Num1),
        3u16 => KeyCode::Regular(RegularKey::Num2),
        4u16 => KeyCode::Regular(RegularKey::Num3),
        5u16 => KeyCode::Regular(RegularKey::Num4),
        6u16 => KeyCode::Regular(RegularKey::Num5),
        7u16 => KeyCode::Regular(RegularKey::Num6),
        8u16 => KeyCode::Regular(RegularKey::Num7),
        9u16 => KeyCode::Regular(RegularKey::Num8),
        10u16 => KeyCode::Regular(RegularKey::Num9),
        11u16 => KeyCode::Regular(RegularKey::Num0),
        12u16 => KeyCode::Regular(RegularKey::Minus),
        13u16 => KeyCode::Regular(RegularKey::Equal),
        14u16 => KeyCode::Regular(RegularKey::Backspace),
        15u16 => KeyCode::Regular(RegularKey::Tab),
        16u16 => KeyCode::Regular(RegularKey::Q),
        17u16 => KeyCode::Regular(RegularKey::W),
        18u16 => KeyCode::Regular(RegularKey::E),
        19u16 => KeyCode::Regular(RegularKey::R),
        20u16 => KeyCode::Regular(RegularKey::T),
        21u16 => KeyCode::Regular(RegularKey::Y),
        22u16 => KeyCode::Regular(RegularKey::U),
        23u16 => KeyCode::Regular(RegularKey::I),
        24u16 => KeyCode::Regular(RegularKey::O),
        25u16 => KeyCode::Regular(RegularKey::P),
        26u16 => KeyCode::Regular(RegularKey::LeftBrace),
        27u16 => KeyCode::Regular(RegularKey::RightBrace),
        28u16 => KeyCode::Regular(RegularKey::Enter),
        29u16 => KeyCode::Modifier(ModifierKey::LeftCtrl),
        30u16 => KeyCode::Regular(RegularKey::A),
        31u16 => KeyCode::Regular(RegularKey::S),
        32u16 => KeyCode::Regular(RegularKey::D),
        33u16 => KeyCode::Regular(RegularKey::F),
        34u16 => KeyCode::Regular(RegularKey::G),
        35u16 => KeyCode::Regular(RegularKey::H),
        36u16 => KeyCode::Regular(RegularKey::J),
        37u16 => KeyCode::Regular(RegularKey::K),
        38u16 => KeyCode::Regular(RegularKey::L),
        39u16 => KeyCode::Regular(RegularKey::Semicolon),
        40u16 => KeyCode::Regular(RegularKey::Apostrophe),
        41u16 => KeyCode::Regular(RegularKey::Grave),
        42u16 => KeyCode::Modifier(ModifierKey::LeftShift),
        43u16 => KeyCode::Regular(RegularKey::Backslash),
        44u16 => KeyCode::Regular(RegularKey::Z),
        45u16 => KeyCode::Regular(RegularKey::X),
        46u16 => KeyCode::Regular(RegularKey::C),
        47u16 => KeyCode::Regular(RegularKey::V),
        48u16 => KeyCode::Regular(RegularKey::B),
        49u16 => KeyCode::Regular(RegularKey::N),
        50u16 => KeyCode::Regular(RegularKey::M),
        51u16 => KeyCode::Regular(RegularKey::Comma),
        52u16 => KeyCode::Regular(RegularKey::Period),
        53u16 => KeyCode::Regular(RegularKey::Slash),
        54u16 => KeyCode::Modifier(ModifierKey::RightShift),
        56u16 => KeyCode::Modifier(ModifierKey::LeftAlt),
        57u16 => KeyCode::Regular(RegularKey::Space),
        58u16 => KeyCode::Regular(RegularKey::CapsLock),
        59u16 => KeyCode::Regular(RegularKey::F1),
        60u16 => KeyCode::Regular(RegularKey::F2),
        61u16 => KeyCode::Regular(RegularKey::F3),
        62u16 => KeyCode::Regular(RegularKey::F4),
        63u16 => KeyCode::Regular(RegularKey::F5),
        64u16 => KeyCode::Regular(RegularKey::F6),
        65u16 => KeyCode::Regular(RegularKey::F7),
        66u16 => KeyCode::Regular(RegularKey::F8),
        67u16 => KeyCode::Regular(RegularKey::F9),
        68u16 => KeyCode::Regular(RegularKey::F10),
        87u16 => KeyCode::Regular(RegularKey::F11),
        88u16 => KeyCode::Regular(RegularKey::F12),
        97u16 => KeyCode::Modifier(ModifierKey::RightCtrl),
        100u16 => KeyCode::Modifier(ModifierKey::RightAlt),
        102u16 => KeyCode::Regular(RegularKey::Home),
        103u16 => KeyCode::Regular(RegularKey::Up),
        104u16 => KeyCode::Regular(RegularKey::PageUp),
        105u16 => KeyCode::Regular(RegularKey::Left),
        106u16 => KeyCode::Regular(RegularKey::Right),
        107u16 => KeyCode::Regular(RegularKey::End),
        108u16 => KeyCode::Regular(RegularKey::Down),
        109u16 => KeyCode::Regular(RegularKey::PageDown),
        110u16 => KeyCode::Regular(RegularKey::Insert),
        111u16 => KeyCode::Regular(RegularKey::Delete),
        125u16 => KeyCode::Modifier(ModifierKey::LeftSuper),
        126u16 => KeyCode::Modifier(ModifierKey::RightSuper),
        _ => KeyCode::Unknown,
    }
}

/// The canonical form of a key for chord comparison: a left or right
/// Ctrl/Shift/Alt/Super collapses to its "Either" counterpart; everything
/// else passes through unchanged.
pub open spec fn spec_canonical(k: KeyCode) -> KeyCode {
    match k {
        KeyCode::Modifier(ModifierKey::LeftCtrl) => KeyCode::Modifier(ModifierKey::EitherCtrl),
        KeyCode::Modifier(ModifierKey::RightCtrl) => KeyCode::Modifier(ModifierKey::EitherCtrl),
        KeyCode::Modifier(ModifierKey::LeftShift) => KeyCode::Modifier(ModifierKey::EitherShift),
        KeyCode::Modifier(ModifierKey::RightShift) => KeyCode::Modifier(ModifierKey::EitherShift),
        KeyCode::Modifier(ModifierKey::LeftAlt) => KeyCode::Modifier(ModifierKey::EitherAlt),
        KeyCode::Modifier(ModifierKey::RightAlt) => KeyCode::Modifier(ModifierKey::EitherAlt),
        KeyCode::Modifier(ModifierKey::LeftSuper) => KeyCode::Modifier(ModifierKey::EitherSuper),
        KeyCode::Modifier(ModifierKey::RightSuper) => KeyCode::Modifier(ModifierKey::EitherSuper),
        _ => k,
    }
}

pub fn canonical_key(k: KeyCode) -> (r: KeyCode)
    ensures
        r == spec_canonical(k),
{
    match k {
        KeyCode::Modifier(ModifierKey::LeftCtrl) => KeyCode::Modifier(ModifierKey::EitherCtrl),
        KeyCode::Modifier(ModifierKey::RightCtrl) => KeyCode::Modifier(ModifierKey::EitherCtrl),
        KeyCode::Modifier(ModifierKey::LeftShift) => KeyCode::Modifier(ModifierKey::EitherShift),
        KeyCode::Modifier(ModifierKey::RightShift) => KeyCode::Modifier(ModifierKey::EitherShift),
        KeyCode::Modifier(ModifierKey::LeftAlt) => KeyCode::Modifier(ModifierKey::EitherAlt),
        KeyCode::Modifier(ModifierKey::RightAlt) => KeyCode::Modifier(ModifierKey::EitherAlt),
        KeyCode::Modifier(ModifierKey::LeftSuper) => KeyCode::Modifier(ModifierKey::EitherSuper),
        KeyCode::Modifier(ModifierKey::RightSuper) => KeyCode::Modifier(ModifierKey::EitherSuper),
        _ => k,
    }
}

} // verus!
