use macropad::chord::BindingError;
use macropad::mapping::{Device, Knob, KnobAction, Layer, Macropad, Mapping, ValidationError};

fn knob(ccw: &str, click: &str, cw: &str) -> Knob {
    Knob { ccw: ccw.to_string(), click: click.to_string(), cw: cw.to_string() }
}

fn layer(rows: &[&[&str]], knobs: Vec<Knob>) -> Layer {
    Layer {
        buttons: rows
            .iter()
            .map(|row| row.iter().map(|binding| binding.to_string()).collect())
            .collect(),
        knobs,
    }
}

fn plain_layer() -> Layer {
    layer(
        &[&["ctrl-c", "ctrl-v", "a,b,c"], &["f1", "shift-f2", "mute"]],
        vec![knob("volumeDown", "mute", "volumeUp")],
    )
}

fn pad(orientation: &str, layers: Vec<Layer>) -> Macropad {
    Macropad {
        device: Device { orientation: orientation.to_string(), rows: 2, cols: 3, knobs: 1 },
        layers,
    }
}

#[test]
fn mapping_validate() -> Result<(), ValidationError> {
    let cfg = pad("normal", vec![plain_layer(), plain_layer(), plain_layer()]);
    Mapping::validate(&cfg)?;
    Ok(())
}

#[test]
fn validate_accepts_one_to_three_layers() {
    assert_eq!(Mapping::validate(&pad("normal", vec![plain_layer()])), Ok(()));
    assert_eq!(Mapping::validate(&pad("normal", vec![plain_layer(), plain_layer()])), Ok(()));
    assert_eq!(
        Mapping::validate(&pad("normal", vec![plain_layer(), plain_layer(), plain_layer()])),
        Ok(())
    );
}

#[test]
fn validate_accepts_a_pad_without_buttons_or_knobs() {
    let cfg = Macropad {
        device: Device { orientation: "clockwise".to_string(), rows: 0, cols: 0, knobs: 0 },
        layers: vec![layer(&[], vec![])],
    };
    assert_eq!(Mapping::validate(&cfg), Ok(()));
}

#[test]
fn validate_orientation() {
    for name in ["normal", "Normal", "upsideDown", "UpsideDown", "clockwise", "counterClockwise"] {
        assert_eq!(Mapping::validate(&pad(name, vec![plain_layer()])), Ok(()));
    }
    for name in ["", "sideways", "NORMAL", "upsidedown", " normal"] {
        assert_eq!(
            Mapping::validate(&pad(name, vec![plain_layer()])),
            Err(ValidationError::InvalidOrientation)
        );
    }
}

#[test]
fn validate_layer_count() {
    assert_eq!(
        Mapping::validate(&pad("normal", vec![])),
        Err(ValidationError::LayerCountOutOfRange)
    );
    let four = vec![plain_layer(), plain_layer(), plain_layer(), plain_layer()];
    assert_eq!(
        Mapping::validate(&pad("normal", four)),
        Err(ValidationError::LayerCountOutOfRange)
    );
}

#[test]
fn validate_row_count_names_the_layer() {
    let short = layer(&[&["a", "b", "c"]], vec![knob("a", "b", "c")]);
    assert_eq!(
        Mapping::validate(&pad("normal", vec![plain_layer(), short])),
        Err(ValidationError::RowCountMismatch { layer: 1, expected: 2, actual: 1 })
    );
    let long = layer(&[&["a", "b", "c"], &["a", "b", "c"], &["a", "b", "c"]], vec![]);
    assert_eq!(
        Mapping::validate(&pad("normal", vec![long])),
        Err(ValidationError::RowCountMismatch { layer: 0, expected: 2, actual: 3 })
    );
}

#[test]
fn validate_column_count_names_layer_and_row() {
    let ragged = layer(&[&["a", "b", "c"], &["a", "b"]], vec![knob("a", "b", "c")]);
    assert_eq!(
        Mapping::validate(&pad("normal", vec![plain_layer(), plain_layer(), ragged])),
        Err(ValidationError::ColumnCountMismatch { layer: 2, row: 1, expected: 3, actual: 2 })
    );
}

#[test]
fn validate_knob_count_names_the_layer() {
    let none = layer(&[&["a", "b", "c"], &["a", "b", "c"]], vec![]);
    assert_eq!(
        Mapping::validate(&pad("normal", vec![none])),
        Err(ValidationError::KnobCountMismatch { layer: 0, expected: 1, actual: 0 })
    );
    let two = layer(
        &[&["a", "b", "c"], &["a", "b", "c"]],
        vec![knob("a", "b", "c"), knob("a", "b", "c")],
    );
    assert_eq!(
        Mapping::validate(&pad("normal", vec![plain_layer(), two])),
        Err(ValidationError::KnobCountMismatch { layer: 1, expected: 1, actual: 2 })
    );
}

#[test]
fn validate_button_binding_names_its_place() {
    let bad = layer(&[&["a", "b", "c"], &["a", "banana", "c"]], vec![knob("a", "b", "c")]);
    assert_eq!(
        Mapping::validate(&pad("normal", vec![plain_layer(), bad])),
        Err(ValidationError::Button {
            layer: 1,
            row: 1,
            col: 1,
            error: BindingError::UnknownKey("banana".to_string()),
        })
    );
    let empty = layer(&[&["a", "b", ""], &["a", "b", "c"]], vec![knob("a", "b", "c")]);
    assert_eq!(
        Mapping::validate(&pad("normal", vec![empty])),
        Err(ValidationError::Button { layer: 0, row: 0, col: 2, error: BindingError::EmptyBinding })
    );
    let chord = vec!["a"; 18].join("-");
    let long = layer(&[&["a", "b", "c"], &["a,b", "b", &chord]], vec![knob("a", "b", "c")]);
    assert_eq!(
        Mapping::validate(&pad("normal", vec![long])),
        Err(ValidationError::Button {
            layer: 0,
            row: 1,
            col: 2,
            error: BindingError::TooManyKeys(0),
        })
    );
}

#[test]
fn validate_knob_bindings_each_on_its_own() {
    let rows: &[&[&str]] = &[&["a", "b", "c"], &["a", "b", "c"]];
    let unknown = |token: &str| BindingError::UnknownKey(token.to_string());
    assert_eq!(
        Mapping::validate(&pad("normal", vec![layer(rows, vec![knob("x1", "x2", "x3")])])),
        Err(ValidationError::Knob { layer: 0, knob: 0, action: KnobAction::Ccw, error: unknown("x1") })
    );
    assert_eq!(
        Mapping::validate(&pad("normal", vec![layer(rows, vec![knob("a", "x2", "x3")])])),
        Err(ValidationError::Knob {
            layer: 0,
            knob: 0,
            action: KnobAction::Click,
            error: unknown("x2"),
        })
    );
    assert_eq!(
        Mapping::validate(&pad("normal", vec![plain_layer(), layer(rows, vec![knob("a", "b", "x3")])])),
        Err(ValidationError::Knob { layer: 1, knob: 0, action: KnobAction::Cw, error: unknown("x3") })
    );
}

#[test]
fn validate_reports_the_first_fault() {
    let bad_rows = layer(&[&["banana"]], vec![]);
    let bad_button = layer(&[&["a", "b", "c"], &["a", "banana", "c"]], vec![]);
    // orientation before everything else
    assert_eq!(
        Mapping::validate(&pad("sideways", vec![])),
        Err(ValidationError::InvalidOrientation)
    );
    // an earlier layer before a later one
    assert_eq!(
        Mapping::validate(&pad("normal", vec![bad_button, bad_rows])),
        Err(ValidationError::Button {
            layer: 0,
            row: 1,
            col: 1,
            error: BindingError::UnknownKey("banana".to_string()),
        })
    );
    // buttons before knobs
    let both = layer(&[&["a", "b", "c"], &["a", "b", "nope"]], vec![]);
    assert_eq!(
        Mapping::validate(&pad("normal", vec![both])),
        Err(ValidationError::Button {
            layer: 0,
            row: 1,
            col: 2,
            error: BindingError::UnknownKey("nope".to_string()),
        })
    );
    // the length of a row before its bindings
    let short_row = layer(&[&["banana", "b"], &["a", "b", "c"]], vec![knob("a", "b", "c")]);
    assert_eq!(
        Mapping::validate(&pad("normal", vec![short_row])),
        Err(ValidationError::ColumnCountMismatch { layer: 0, row: 0, expected: 3, actual: 2 })
    );
}
