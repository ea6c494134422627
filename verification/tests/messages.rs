use macropad::chord::BindingError;
use macropad::keyboard::LedColor;
use macropad::messages::{EncodingError, Messages};

fn chord_of(keys: usize) -> String {
    let names = [
        "a", "b", "c", "d", "e", "f", "g", "h", "i", "j", "k", "l", "m", "n", "o", "p", "q", "r",
        "s", "t",
    ];
    names[..keys].join("-")
}

#[test]
fn ctrl_a_ctrl_s() -> Result<(), EncodingError> {
    // ctrl-a,ctrl-s
    // 03 fd 01 01 01 00 00 00     00 00 02 01 04 01 16 00   00...
    let msg = Messages::build_key_msg("ctrl-a,ctrl-s".to_string(), 1u8, 1u8, 0)?;
    println!("{:02x?}", msg);
    assert_eq!(msg.len(), 65);
    assert_eq!(msg[10], 0x02);
    assert_eq!(msg[11], 0x01);
    assert_eq!(msg[12], 0x04);
    assert_eq!(msg[13], 0x01);
    assert_eq!(msg[14], 0x16);
    Ok(())
}

#[test]
fn well_known_key() -> Result<(), EncodingError> {
    let msg = Messages::build_key_msg("a".to_string(), 1u8, 1u8, 0)?;
    println!("{:02x?}", msg);
    assert_eq!(msg.len(), 65);
    assert_eq!(msg[10], 0x01);
    assert_eq!(msg[11], 0x00);
    assert_eq!(msg[12], 0x04);
    Ok(())
}

#[test]
fn key_msg_whole_layout() {
    let msg = Messages::build_key_msg("ctrl-a,ctrl-s".to_string(), 2, 7, 0).unwrap();
    let mut expected = vec![0x03, 0xfd, 0x07, 0x02, 0x01, 0, 0, 0, 0, 0, 0x02, 0x01, 0x04, 0x01, 0x16];
    expected.resize(65, 0);
    assert_eq!(msg, expected);
}

#[test]
fn key_msg_header_holds_position_then_layer() {
    let msg = Messages::build_key_msg("a".to_string(), 3, 9, 0).unwrap();
    assert_eq!(&msg[..11], &[0x03, 0xfd, 9, 3, 0x01, 0, 0, 0, 0, 0, 1]);
}

#[test]
fn key_msg_lone_modifier_has_no_key_byte() {
    let msg = Messages::build_key_msg("shift".to_string(), 1, 1, 0).unwrap();
    assert_eq!(msg.len(), 65);
    assert_eq!(&msg[10..15], &[0x01, 0x02, 0x00, 0x00, 0x00]);
}

#[test]
fn key_msg_modifiers_of_a_chord_are_combined() {
    let msg = Messages::build_key_msg("ctrl-shift-a".to_string(), 1, 1, 0).unwrap();
    assert_eq!(&msg[10..15], &[0x01, 0x03, 0x04, 0x00, 0x00]);
    let msg = Messages::build_key_msg("a-rightAlt-ctrl".to_string(), 1, 1, 0).unwrap();
    assert_eq!(&msg[10..15], &[0x01, 0x41, 0x04, 0x00, 0x00]);
}

#[test]
fn key_msg_media_key_fills_the_key_byte() {
    let msg = Messages::build_key_msg("mute".to_string(), 1, 1, 0).unwrap();
    assert_eq!(&msg[10..15], &[0x01, 0x00, 0xe2, 0x00, 0x00]);
}

#[test]
fn key_msg_each_plain_key_of_a_chord_is_a_press() {
    let msg = Messages::build_key_msg("ctrl-a-b".to_string(), 1, 1, 0).unwrap();
    assert_eq!(msg.len(), 65);
    assert_eq!(&msg[10..17], &[0x01, 0x01, 0x04, 0x01, 0x05, 0x00, 0x00]);
}

#[test]
fn key_msg_unknown_key() {
    let r = Messages::build_key_msg("banana".to_string(), 1, 1, 0);
    assert_eq!(r, Err(EncodingError::Binding(BindingError::UnknownKey("banana".to_string()))));
    let r = Messages::build_key_msg("ctrl-a,ctrl-banana".to_string(), 1, 1, 0);
    assert_eq!(r, Err(EncodingError::Binding(BindingError::UnknownKey("banana".to_string()))));
}

#[test]
fn key_msg_empty_binding() {
    let r = Messages::build_key_msg(String::new(), 1, 1, 0);
    assert_eq!(r, Err(EncodingError::Binding(BindingError::EmptyBinding)));
}

#[test]
fn key_msg_too_many_keys_in_a_chord() {
    let r = Messages::build_key_msg(chord_of(18), 1, 1, 0);
    assert_eq!(r, Err(EncodingError::Binding(BindingError::TooManyKeys(0))));
}

#[test]
fn key_msg_seventeen_presses_fit() {
    let msg = Messages::build_key_msg(chord_of(17), 1, 1, 0).unwrap();
    assert_eq!(msg.len(), 65);
    assert_eq!(msg[10], 1);
    for i in 0..17 {
        assert_eq!(msg[11 + 2 * i], 0x00);
        assert_eq!(msg[12 + 2 * i], 0x04 + i as u8);
    }
    assert!(msg[45..].iter().all(|b| *b == 0));
}

#[test]
fn key_msg_eighteen_presses_overflow() {
    let binding = format!("{},a", chord_of(17));
    assert_eq!(Messages::build_key_msg(binding, 1, 1, 0), Err(EncodingError::Overflow));
    let binding = vec!["a"; 18].join(",");
    assert_eq!(Messages::build_key_msg(binding, 1, 1, 0), Err(EncodingError::Overflow));
}

#[test]
fn key_msg_seventeen_chords() {
    let binding = vec!["ctrl-z"; 17].join(",");
    let msg = Messages::build_key_msg(binding, 1, 1, 0).unwrap();
    assert_eq!(msg.len(), 65);
    assert_eq!(msg[10], 17);
    for i in 0..17 {
        assert_eq!(msg[11 + 2 * i], 0x01);
        assert_eq!(msg[12 + 2 * i], 0x1d);
    }
    assert!(msg[45..].iter().all(|b| *b == 0));
}

#[test]
fn key_msg_is_always_65_bytes() {
    for chords in 1..=17 {
        let binding = vec!["shift-f5"; chords].join(",");
        let msg = Messages::build_key_msg(binding, 0, 0, 0).unwrap();
        assert_eq!(msg.len(), 65);
        assert_eq!(msg[0], 0x03);
        assert_eq!(msg[10] as usize, chords);
    }
}

#[test]
fn key_msg_does_not_depend_on_the_delay() {
    let a = Messages::build_key_msg("ctrl-c".to_string(), 1, 2, 0).unwrap();
    let b = Messages::build_key_msg("ctrl-c".to_string(), 1, 2, 500).unwrap();
    assert_eq!(a, b);
}

#[test]
fn read_config_layout() {
    let msg = Messages::read_config(12, 2, 1);
    assert_eq!(msg.len(), 65);
    assert_eq!(&msg[..8], &[0x03, 0xfa, 12, 2, 1, 0x02, 0xe0, 0xcb]);
    assert_eq!(&msg[62..], &[0xc7, 0xb6, 0xc2]);
    let other = Messages::read_config(3, 1, 2);
    assert_eq!(&other[2..5], &[3, 1, 2]);
    assert_eq!(&msg[5..], &other[5..]);
    assert_eq!(&msg[..2], &other[..2]);
}

#[test]
fn device_type_is_constant() {
    let a = Messages::device_type();
    let b = Messages::device_type();
    assert_eq!(a, b);
    assert_eq!(a.len(), 65);
    assert_eq!(&a[..5], &[0x03, 0xfb, 0xfb, 0xfb, 0x1f]);
    assert_eq!(&a[62..], &[0xff, 0xff, 0xff]);
}

#[test]
fn end_program_is_constant() {
    let a = Messages::end_program();
    let b = Messages::end_program();
    assert_eq!(a, b);
    assert_eq!(a.len(), 65);
    assert_eq!(&a[..4], &[0x03, 0xfd, 0xfe, 0xff]);
    assert!(a[4..].iter().all(|byte| *byte == 0));
}

#[test]
fn program_led_combines_mode_and_colour() {
    let msg = Messages::program_led(1, LedColor::Red);
    assert_eq!(msg.len(), 65);
    assert_eq!(&msg[..13], &[0x03, 0xfe, 0xb0, 0x01, 0x08, 0, 0, 0, 0, 0, 0x01, 0x00, 0x11]);
    assert!(msg[13..].iter().all(|byte| *byte == 0));
    assert_eq!(Messages::program_led(0, LedColor::Purple)[12], 0x70);
    assert_eq!(Messages::program_led(2, LedColor::Cyan)[12], 0x52);
    assert_eq!(Messages::program_led(0x30, LedColor::Orange)[12], 0x30);
}
