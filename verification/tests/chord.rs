use macropad::chord::{BindingError, ChordEncoder, Key};
use macropad::consts::MAX_KEY_PRESSES;
use macropad::keyboard::{MediaCode, Modifier, WellKnownCode};

fn unknown(token: &str) -> BindingError {
    BindingError::UnknownKey(token.to_string())
}

#[test]
fn max_key_presses_is_seventeen() {
    assert_eq!(MAX_KEY_PRESSES, 17);
}

#[test]
fn encode_single_plain_key() {
    assert_eq!(ChordEncoder::encode("a"), Ok(vec![(0x00, WellKnownCode::A.code())]));
    assert_eq!(ChordEncoder::encode("a"), Ok(vec![(0x00, 0x04)]));
}

#[test]
fn encode_ctrl_a_ctrl_s() {
    assert_eq!(ChordEncoder::encode("ctrl-a,ctrl-s"), Ok(vec![(0x01, 0x04), (0x01, 0x16)]));
}

#[test]
fn encode_lone_modifier() {
    assert_eq!(ChordEncoder::encode("alt"), Ok(vec![(0x04, 0x00)]));
    assert_eq!(ChordEncoder::encode("ctrl-alt"), Ok(vec![(0x05, 0x00)]));
}

#[test]
fn encode_media_key() {
    assert_eq!(ChordEncoder::encode("volumeUp"), Ok(vec![(0x00, 0xe9)]));
    assert_eq!(ChordEncoder::encode("shift-next"), Ok(vec![(0x02, 0xb5)]));
}

#[test]
fn encode_modifier_after_the_key() {
    assert_eq!(ChordEncoder::encode("a-ctrl"), Ok(vec![(0x01, 0x04)]));
}

#[test]
fn encode_several_plain_keys_in_one_chord() {
    assert_eq!(ChordEncoder::encode("a-b"), Ok(vec![(0x00, 0x04), (0x00, 0x05)]));
    assert_eq!(
        ChordEncoder::encode("win-x-shift-y,z"),
        Ok(vec![(0x0a, 0x1b), (0x0a, 0x1c), (0x00, 0x1d)])
    );
}

#[test]
fn unknown_key_fails_validate_and_encode() {
    assert_eq!(ChordEncoder::validate("banana"), Err(unknown("banana")));
    assert_eq!(ChordEncoder::encode("banana"), Err(unknown("banana")));
    assert_eq!(ChordEncoder::validate("ctrl-a,shift-banana-b"), Err(unknown("banana")));
    assert_eq!(ChordEncoder::encode("ctrl-a,shift-banana-b"), Err(unknown("banana")));
}

#[test]
fn unknown_key_is_reported_as_written() {
    assert_eq!(ChordEncoder::validate("Banana"), Err(unknown("Banana")));
    assert_eq!(ChordEncoder::validate("bANANA"), Err(unknown("bANANA")));
}

#[test]
fn first_unknown_key_wins() {
    assert_eq!(ChordEncoder::validate("a,foo,bar"), Err(unknown("foo")));
    assert_eq!(ChordEncoder::validate("a-bar-foo"), Err(unknown("bar")));
}

#[test]
fn empty_binding_is_refused() {
    assert_eq!(ChordEncoder::validate(""), Err(BindingError::EmptyBinding));
    assert_eq!(ChordEncoder::encode(""), Err(BindingError::EmptyBinding));
}

#[test]
fn empty_names_are_unknown() {
    assert_eq!(ChordEncoder::validate("a,"), Err(unknown("")));
    assert_eq!(ChordEncoder::validate(",a"), Err(unknown("")));
    assert_eq!(ChordEncoder::validate("ctrl-"), Err(unknown("")));
    assert_eq!(ChordEncoder::validate("-"), Err(unknown("")));
    assert_eq!(ChordEncoder::validate(" a"), Err(unknown(" a")));
}

#[test]
fn too_many_keys_fails_validate_and_encode() {
    let chord = vec!["a"; 18].join("-");
    assert_eq!(ChordEncoder::validate(&chord), Err(BindingError::TooManyKeys(0)));
    assert_eq!(ChordEncoder::encode(&chord), Err(BindingError::TooManyKeys(0)));
}

#[test]
fn too_many_keys_names_the_chord() {
    let binding = format!("ctrl-a,b,{}", vec!["a"; 18].join("-"));
    assert_eq!(ChordEncoder::validate(&binding), Err(BindingError::TooManyKeys(2)));
    assert_eq!(ChordEncoder::encode(&binding), Err(BindingError::TooManyKeys(2)));
}

#[test]
fn too_many_keys_is_found_before_unknown_names_of_the_chord() {
    let chord = vec!["banana"; 18].join("-");
    assert_eq!(ChordEncoder::validate(&chord), Err(BindingError::TooManyKeys(0)));
    let binding = format!("banana,{}", vec!["a"; 18].join("-"));
    assert_eq!(ChordEncoder::validate(&binding), Err(unknown("banana")));
}

#[test]
fn the_limit_is_per_chord() {
    let chord = vec!["a"; 17].join("-");
    assert_eq!(ChordEncoder::validate(&chord), Ok(()));
    let binding = format!("{},{}", chord, chord);
    assert_eq!(ChordEncoder::validate(&binding), Ok(()));
    assert_eq!(ChordEncoder::encode(&binding).map(|pairs| pairs.len()), Ok(34));
}

#[test]
fn names_are_capitalised_before_lookup() {
    assert_eq!(ChordEncoder::validate("ctrl"), Ok(()));
    assert_eq!(ChordEncoder::validate("Ctrl"), Ok(()));
    assert_eq!(ChordEncoder::validate("enter"), Ok(()));
    assert_eq!(ChordEncoder::validate("f12"), Ok(()));
    assert_eq!(ChordEncoder::validate("1"), Ok(()));
}

#[test]
fn case_after_the_first_letter_is_kept() {
    assert_eq!(ChordEncoder::validate("pageUp"), Ok(()));
    assert_eq!(ChordEncoder::validate("PageUp"), Ok(()));
    assert_eq!(ChordEncoder::validate("pageup"), Err(unknown("pageup")));
    assert_eq!(ChordEncoder::validate("CTRL"), Err(unknown("CTRL")));
    assert_eq!(ChordEncoder::validate("A"), Ok(()));
    assert_eq!(ChordEncoder::validate("volumeup"), Err(unknown("volumeup")));
}

#[test]
fn resolve_tags_the_key() {
    assert_eq!(Key::resolve("shift"), Some(Key::Modifier(Modifier::Shift)));
    assert_eq!(Key::resolve("play"), Some(Key::Media(MediaCode::Play)));
    assert_eq!(Key::resolve("space"), Some(Key::WellKnown(WellKnownCode::Space)));
    assert_eq!(Key::resolve("0"), Some(Key::WellKnown(WellKnownCode::N0)));
    assert_eq!(Key::resolve("banana"), None);
    assert_eq!(Key::resolve(""), None);
}

#[test]
fn key_bytes_of_a_key() {
    assert_eq!(Key::Modifier(Modifier::RightWin).modifier_byte(), 0x80);
    assert_eq!(Key::Modifier(Modifier::RightWin).key_byte(), 0x00);
    assert_eq!(Key::WellKnown(WellKnownCode::Z).modifier_byte(), 0x00);
    assert_eq!(Key::WellKnown(WellKnownCode::Z).key_byte(), 0x1d);
    assert_eq!(Key::Media(MediaCode::Stop).modifier_byte(), 0x00);
    assert_eq!(Key::Media(MediaCode::Stop).key_byte(), 0xb7);
}

#[test]
fn parse_gives_the_chords_and_their_keys() {
    let chords = ChordEncoder::parse("ctrl-a,mute").unwrap();
    assert_eq!(
        chords,
        vec![
            vec![Key::Modifier(Modifier::Ctrl), Key::WellKnown(WellKnownCode::A)],
            vec![Key::Media(MediaCode::Mute)],
        ]
    );
    assert_eq!(ChordEncoder::pairs(&chords), vec![(0x01, 0x04), (0x00, 0xe2)]);
    assert_eq!(ChordEncoder::parse_chord(3, "a-nope"), Err(unknown("nope")));
}

#[test]
fn validate_agrees_with_encode() {
    for binding in ["a", "ctrl-a,ctrl-s", "", "banana", "a,", "shift", "f1-f2-f3", "a--b"] {
        assert_eq!(
            ChordEncoder::validate(binding).is_ok(),
            ChordEncoder::encode(binding).is_ok()
        );
        assert_eq!(ChordEncoder::validate(binding).err(), ChordEncoder::encode(binding).err());
    }
}
