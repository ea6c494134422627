use macropad::config::Orientation;
use macropad::keyboard::{LedColor, MediaCode, Modifier, WellKnownCode};

#[test]
fn modifier_codes_are_single_bits() {
    let all = [
        (Modifier::Ctrl, "Ctrl", 0x01),
        (Modifier::Shift, "Shift", 0x02),
        (Modifier::Alt, "Alt", 0x04),
        (Modifier::Win, "Win", 0x08),
        (Modifier::RightCtrl, "RightCtrl", 0x10),
        (Modifier::RightShift, "RightShift", 0x20),
        (Modifier::RightAlt, "RightAlt", 0x40),
        (Modifier::RightWin, "RightWin", 0x80),
    ];
    for (modifier, name, code) in all {
        assert_eq!(modifier.name(), name);
        assert_eq!(modifier.code(), code);
        assert_eq!(Modifier::from_name(name), Some(modifier));
    }
}

#[test]
fn media_codes() {
    let all = [
        (MediaCode::Next, "Next", 0xb5),
        (MediaCode::Previous, "Previous", 0xb6),
        (MediaCode::Stop, "Stop", 0xb7),
        (MediaCode::Play, "Play", 0xcd),
        (MediaCode::Mute, "Mute", 0xe2),
        (MediaCode::VolumeUp, "VolumeUp", 0xe9),
        (MediaCode::VolumeDown, "VolumeDown", 0xea),
    ];
    for (key, name, code) in all {
        assert_eq!(key.name(), name);
        assert_eq!(key.code(), code);
        assert_eq!(MediaCode::from_name(name), Some(key));
    }
}

#[test]
fn led_colour_codes() {
    let all = [
        (LedColor::Red, "Red", 0x10),
        (LedColor::Orange, "Orange", 0x20),
        (LedColor::Yellow, "Yellow", 0x30),
        (LedColor::Green, "Green", 0x40),
        (LedColor::Cyan, "Cyan", 0x50),
        (LedColor::Blue, "Blue", 0x60),
        (LedColor::Purple, "Purple", 0x70),
    ];
    for (colour, name, code) in all {
        assert_eq!(colour.name(), name);
        assert_eq!(colour.code(), code);
        assert_eq!(LedColor::from_name(name), Some(colour));
    }
}

#[test]
fn well_known_codes() {
    let some = [
        (WellKnownCode::A, "A", 0x04),
        (WellKnownCode::S, "S", 0x16),
        (WellKnownCode::Z, "Z", 0x1d),
        (WellKnownCode::N1, "1", 0x1e),
        (WellKnownCode::N9, "9", 0x26),
        (WellKnownCode::N0, "0", 0x27),
        (WellKnownCode::Enter, "Enter", 0x28),
        (WellKnownCode::Escape, "Escape", 0x29),
        (WellKnownCode::Space, "Space", 0x2c),
        (WellKnownCode::CapsLock, "CapsLock", 0x39),
        (WellKnownCode::F1, "F1", 0x3a),
        (WellKnownCode::F12, "F12", 0x45),
        (WellKnownCode::PrintScreen, "PrintScreen", 0x46),
        (WellKnownCode::PageUp, "PageUp", 0x4b),
        (WellKnownCode::Up, "Up", 0x52),
        (WellKnownCode::NumLock, "NumLock", 0x53),
        (WellKnownCode::NumPadEnter, "NumPadEnter", 0x58),
        (WellKnownCode::NumPad1, "NumPad1", 0x59),
        (WellKnownCode::NumPad0, "NumPad0", 0x62),
        (WellKnownCode::NumPadEqual, "NumPadEqual", 0x67),
        (WellKnownCode::F13, "F13", 0x68),
        (WellKnownCode::F24, "F24", 0x73),
    ];
    for (key, name, code) in some {
        assert_eq!(key.name(), name);
        assert_eq!(key.code(), code);
        assert_eq!(WellKnownCode::from_name(name), Some(key));
    }
}

#[test]
fn well_known_letters_are_in_order() {
    for (i, letter) in ('A'..='Z').enumerate() {
        let key = WellKnownCode::from_name(&letter.to_string()).unwrap();
        assert_eq!(key.code(), 0x04 + i as u8);
        assert_eq!(key.name(), letter.to_string());
    }
}

#[test]
fn lookup_is_exact() {
    assert_eq!(Modifier::from_name("ctrl"), None);
    assert_eq!(Modifier::from_name("CTRL"), None);
    assert_eq!(Modifier::from_name("Ctrl "), None);
    assert_eq!(Modifier::from_name(""), None);
    assert_eq!(WellKnownCode::from_name("a"), None);
    assert_eq!(WellKnownCode::from_name("F25"), None);
    assert_eq!(WellKnownCode::from_name("Pageup"), None);
    assert_eq!(MediaCode::from_name("Volumeup"), None);
    assert_eq!(LedColor::from_name("red"), None);
}

#[test]
fn the_tables_do_not_share_names() {
    assert_eq!(WellKnownCode::from_name("Ctrl"), None);
    assert_eq!(MediaCode::from_name("Ctrl"), None);
    assert_eq!(Modifier::from_name("Mute"), None);
    assert_eq!(WellKnownCode::from_name("Mute"), None);
    assert_eq!(Modifier::from_name("A"), None);
    assert_eq!(MediaCode::from_name("A"), None);
}

#[test]
fn orientation_names() {
    let all = [
        (Orientation::Normal, "Normal"),
        (Orientation::UpsideDown, "UpsideDown"),
        (Orientation::Clockwise, "Clockwise"),
        (Orientation::CounterClockwise, "CounterClockwise"),
    ];
    for (orientation, name) in all {
        assert_eq!(orientation.name(), name);
        assert_eq!(Orientation::from_name(name), Some(orientation));
    }
    assert_eq!(Orientation::from_name("normal"), None);
    assert_eq!(Orientation::from_name("Sideways"), None);
}
