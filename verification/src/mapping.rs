//! The layered key mapping of a macropad and its validation against the
//! device's geometry and the key vocabulary.

use crate::chord::{
    lemma_ok_iff_well_formed, spec_validate, well_formed_binding, BindingError, BindingErrorView,
    ChordEncoder,
};
use crate::config::Orientation;
use crate::consts::MAX_LAYERS;
use crate::text::{capitalized, uppercase_first};
use crate::try_map::{
    lemma_try_map_err_prefix, lemma_try_map_first_err, lemma_try_map_ok, lemma_try_map_step,
    try_map,
};
use vstd::prelude::*;

verus! {

/// A whole configuration: the device and its layers.
#[derive(Debug)]
pub struct Macropad {
    pub device: Device,
    pub layers: Vec<Layer>,
}

/// The geometry of the device. Every layer has to match it exactly.
#[derive(Debug)]
pub struct Device {
    pub orientation: String,
    pub rows: u8,
    pub cols: u8,
    pub knobs: u8,
}

/// One full mapping of the device: a binding for each button, row by row,
/// and three bindings for each knob.
#[derive(Debug)]
pub struct Layer {
    pub buttons: Vec<Vec<String>>,
    pub knobs: Vec<Knob>,
}

/// The bindings of one knob: turned counter-clockwise, pressed, and turned
/// clockwise.
#[derive(Debug)]
pub struct Knob {
    pub ccw: String,
    pub click: String,
    pub cw: String,
}

/// One of the three things that can be done with a knob.
#[derive(Clone, Copy, Debug, PartialEq, Eq, Structural)]
pub enum KnobAction {
    Ccw,
    Click,
    Cw,
}

/// The first fault found in a configuration. Layers, rows, columns and knobs
/// are counted from zero.
#[derive(Debug, PartialEq, Eq)]
pub enum ValidationError {
    /// The orientation is not one the device knows.
    InvalidOrientation,
    /// There is no layer, or there are more than `MAX_LAYERS`.
    LayerCountOutOfRange,
    /// A layer does not have the device's number of rows.
    RowCountMismatch { layer: usize, expected: u8, actual: usize },
    /// A row does not have the device's number of columns.
    ColumnCountMismatch { layer: usize, row: usize, expected: u8, actual: usize },
    /// A layer does not have the device's number of knobs.
    KnobCountMismatch { layer: usize, expected: u8, actual: usize },
    /// The binding of a button is not acceptable.
    Button { layer: usize, row: usize, col: usize, error: BindingError },
    /// One of the bindings of a knob is not acceptable.
    Knob { layer: usize, knob: usize, action: KnobAction, error: BindingError },
}

/// The mathematical value of a `Knob`.
pub struct KnobView {
    pub ccw: Seq<char>,
    pub click: Seq<char>,
    pub cw: Seq<char>,
}

/// The mathematical value of a `Layer`.
pub struct LayerView {
    pub buttons: Seq<Seq<Seq<char>>>,
    pub knobs: Seq<KnobView>,
}

/// The mathematical value of a `Device`.
pub struct DeviceView {
    pub orientation: Seq<char>,
    pub rows: u8,
    pub cols: u8,
    pub knobs: u8,
}

/// The mathematical value of a `Macropad`.
pub struct MacropadView {
    pub device: DeviceView,
    pub layers: Seq<LayerView>,
}

/// The mathematical value of a `ValidationError`.
pub enum ValidationErrorView {
    InvalidOrientation,
    LayerCountOutOfRange,
    RowCountMismatch { layer: nat, expected: u8, actual: nat },
    ColumnCountMismatch { layer: nat, row: nat, expected: u8, actual: nat },
    KnobCountMismatch { layer: nat, expected: u8, actual: nat },
    Button { layer: nat, row: nat, col: nat, error: BindingErrorView },
    Knob { layer: nat, knob: nat, action: KnobAction, error: BindingErrorView },
}

impl View for Knob {
    type V = KnobView;

    open spec fn view(&self) -> KnobView {
        KnobView { ccw: self.ccw@, click: self.click@, cw: self.cw@ }
    }
}

/// The bindings of one row of buttons.
pub open spec fn row_view(row: Vec<String>) -> Seq<Seq<char>> {
    row@.map_values(|binding: String| binding@)
}

impl View for Layer {
    type V = LayerView;

    open spec fn view(&self) -> LayerView {
        LayerView {
            buttons: self.buttons@.map_values(|row: Vec<String>| row_view(row)),
            knobs: self.knobs@.map_values(|knob: Knob| knob@),
        }
    }
}

impl View for Device {
    type V = DeviceView;

    open spec fn view(&self) -> DeviceView {
        DeviceView {
            orientation: self.orientation@,
            rows: self.rows,
            cols: self.cols,
            knobs: self.knobs,
        }
    }
}

impl View for Macropad {
    type V = MacropadView;

    open spec fn view(&self) -> MacropadView {
        MacropadView {
            device: self.device@,
            layers: self.layers@.map_values(|layer: Layer| layer@),
        }
    }
}

impl View for ValidationError {
    type V = ValidationErrorView;

    open spec fn view(&self) -> ValidationErrorView {
        match self {
            ValidationError::InvalidOrientation => ValidationErrorView::InvalidOrientation,
            ValidationError::LayerCountOutOfRange => ValidationErrorView::LayerCountOutOfRange,
            ValidationError::RowCountMismatch { layer, expected, actual } => {
                ValidationErrorView::RowCountMismatch {
                    layer: *layer as nat,
                    expected: *expected,
                    actual: *actual as nat,
                }
            },
            ValidationError::ColumnCountMismatch { layer, row, expected, actual } => {
                ValidationErrorView::ColumnCountMismatch {
                    layer: *layer as nat,
                    row: *row as nat,
                    expected: *expected,
                    actual: *actual as nat,
                }
            },
            ValidationError::KnobCountMismatch { layer, expected, actual } => {
                ValidationErrorView::KnobCountMismatch {
                    layer: *layer as nat,
                    expected: *expected,
                    actual: *actual as nat,
                }
            },
            ValidationError::Button { layer, row, col, error } => ValidationErrorView::Button {
                layer: *layer as nat,
                row: *row as nat,
                col: *col as nat,
                error: error@,
            },
            ValidationError::Knob { layer, knob, action, error } => ValidationErrorView::Knob {
                layer: *layer as nat,
                knob: *knob as nat,
                action: *action,
                error: error@,
            },
        }
    }
}

/// Checking the binding of the button at (`layer`, `row`, column).
pub open spec fn button_check(layer: int, row: int) -> spec_fn(int, Seq<char>) -> Result<
    (),
    ValidationErrorView,
> {
    |col: int, binding: Seq<char>|
        match spec_validate(binding) {
            Ok(_) => Ok(()),
            Err(error) => Err(
                ValidationErrorView::Button {
                    layer: layer as nat,
                    row: row as nat,
                    col: col as nat,
                    error,
                },
            ),
        }
}

/// Checking one row of buttons: its length, then its bindings from left to
/// right.
pub open spec fn spec_row_check(device: DeviceView, layer: int, row: int, bindings: Seq<Seq<char>>)
    -> Result<(), ValidationErrorView> {
    if bindings.len() != device.cols {
        Err(
            ValidationErrorView::ColumnCountMismatch {
                layer: layer as nat,
                row: row as nat,
                expected: device.cols,
                actual: bindings.len(),
            },
        )
    } else {
        match try_map(bindings, button_check(layer, row)) {
            Ok(_) => Ok(()),
            Err(e) => Err(e),
        }
    }
}

/// Checking the row with a given index of the layer `layer`.
pub open spec fn row_check(device: DeviceView, layer: int) -> spec_fn(
    int,
    Seq<Seq<char>>,
) -> Result<(), ValidationErrorView> {
    |row: int, bindings: Seq<Seq<char>>| spec_row_check(device, layer, row, bindings)
}

/// The binding of a knob for one action, tagged with where it stands.
pub open spec fn knob_binding_check(layer: int, knob: int, action: KnobAction, binding: Seq<char>)
    -> Result<(), ValidationErrorView> {
    match spec_validate(binding) {
        Ok(_) => Ok(()),
        Err(error) => Err(
            ValidationErrorView::Knob { layer: layer as nat, knob: knob as nat, action, error },
        ),
    }
}

/// Checking one knob: counter-clockwise, then click, then clockwise.
pub open spec fn spec_knob_check(layer: int, knob: int, bindings: KnobView) -> Result<
    (),
    ValidationErrorView,
> {
    match knob_binding_check(layer, knob, KnobAction::Ccw, bindings.ccw) {
        Err(e) => Err(e),
        Ok(_) => match knob_binding_check(layer, knob, KnobAction::Click, bindings.click) {
            Err(e) => Err(e),
            Ok(_) => knob_binding_check(layer, knob, KnobAction::Cw, bindings.cw),
        },
    }
}

/// Checking the knob with a given index of the layer `layer`.
pub open spec fn knob_check(layer: int) -> spec_fn(int, KnobView) -> Result<
    (),
    ValidationErrorView,
> {
    |knob: int, bindings: KnobView| spec_knob_check(layer, knob, bindings)
}

/// Checking one layer: the number of rows, then the rows from top to bottom,
/// then the number of knobs, then the knobs in order.
pub open spec fn spec_layer_check(device: DeviceView, index: int, layer: LayerView) -> Result<
    (),
    ValidationErrorView,
> {
    if layer.buttons.len() != device.rows {
        Err(
            ValidationErrorView::RowCountMismatch {
                layer: index as nat,
                expected: device.rows,
                actual: layer.buttons.len(),
            },
        )
    } else {
        match try_map(layer.buttons, row_check(device, index)) {
            Err(e) => Err(e),
            Ok(_) => if layer.knobs.len() != device.knobs {
                Err(
                    ValidationErrorView::KnobCountMismatch {
                        layer: index as nat,
                        expected: device.knobs,
                        actual: layer.knobs.len(),
                    },
                )
            } else {
                match try_map(layer.knobs, knob_check(index)) {
                    Ok(_) => Ok(()),
                    Err(e) => Err(e),
                }
            },
        }
    }
}

/// Checking the layer with a given index.
pub open spec fn layer_check(device: DeviceView) -> spec_fn(int, LayerView) -> Result<
    (),
    ValidationErrorView,
> {
    |index: int, layer: LayerView| spec_layer_check(device, index, layer)
}

/// Whether a configuration is acceptable, and if not, the first fault in it:
/// the orientation, then the number of layers, then the layers in order.
pub open spec fn spec_validate_config(cfg: MacropadView) -> Result<(), ValidationErrorView> {
    if Orientation::spec_from_name(capitalized(cfg.device.orientation)) is None {
        Err(ValidationErrorView::InvalidOrientation)
    } else if cfg.layers.len() == 0 || cfg.layers.len() > MAX_LAYERS {
        Err(ValidationErrorView::LayerCountOutOfRange)
    } else {
        match try_map(cfg.layers, layer_check(cfg.device)) {
            Ok(_) => Ok(()),
            Err(e) => Err(e),
        }
    }
}

/// The outcome of a check, with the error as its mathematical value.
pub open spec fn outcome(r: Result<(), ValidationError>) -> Result<(), ValidationErrorView> {
    match r {
        Ok(_) => Ok(()),
        Err(e) => Err(e@),
    }
}

/// Validates key mappings.
pub struct Mapping {}

impl Mapping {
    /// Checks one row of buttons of a layer.
    fn check_row(device: &Device, layer: usize, row: usize, bindings: &Vec<String>) -> (r: Result<
        (),
        ValidationError,
    >)
        ensures
            outcome(r) == spec_row_check(device@, layer as int, row as int, row_view(*bindings)),
    {
        if bindings.len() != device.cols as usize {
            return Err(
                ValidationError::ColumnCountMismatch {
                    layer,
                    row,
                    expected: device.cols,
                    actual: bindings.len(),
                },
            );
        }
        let ghost check = button_check(layer as int, row as int);
        let mut col: usize = 0;
        while col < bindings.len()
            invariant
                col <= bindings.len(),
                bindings.len() == device.cols,
                check == button_check(layer as int, row as int),
                try_map(row_view(*bindings).take(col as int), check) is Ok,
            decreases bindings.len() - col,
        {
            proof {
                lemma_try_map_step(row_view(*bindings), check, col as int);
            }
            match ChordEncoder::validate(bindings[col].as_str()) {
                Ok(_) => {},
                Err(error) => {
                    proof {
                        lemma_try_map_err_prefix(row_view(*bindings), check, col + 1);
                    }
                    return Err(ValidationError::Button { layer, row, col, error });
                },
            }
            col += 1;
        }
        proof {
            assert(row_view(*bindings).take(col as int) =~= row_view(*bindings));
        }
        Ok(())
    }

    /// Checks one binding of a knob.
    fn check_knob_binding(layer: usize, knob: usize, action: KnobAction, binding: &str) -> (r:
        Result<(), ValidationError>)
        ensures
            outcome(r) == knob_binding_check(layer as int, knob as int, action, binding@),
    {
        match ChordEncoder::validate(binding) {
            Ok(_) => Ok(()),
            Err(error) => Err(ValidationError::Knob { layer, knob, action, error }),
        }
    }

    /// Checks the three bindings of one knob of a layer.
    fn check_knob(layer: usize, knob: usize, bindings: &Knob) -> (r: Result<(), ValidationError>)
        ensures
            outcome(r) == spec_knob_check(layer as int, knob as int, bindings@),
    {
        match Self::check_knob_binding(layer, knob, KnobAction::Ccw, bindings.ccw.as_str()) {
            Ok(_) => {},
            Err(e) => {
                return Err(e);
            },
        }
        match Self::check_knob_binding(layer, knob, KnobAction::Click, bindings.click.as_str()) {
            Ok(_) => {},
            Err(e) => {
                return Err(e);
            },
        }
        Self::check_knob_binding(layer, knob, KnobAction::Cw, bindings.cw.as_str())
    }

    /// Checks one layer against the device.
    fn check_layer(device: &Device, index: usize, layer: &Layer) -> (r: Result<
        (),
        ValidationError,
    >)
        ensures
            outcome(r) == spec_layer_check(device@, index as int, layer@),
    {
        // row check
        if layer.buttons.len() != device.rows as usize {
            return Err(
                ValidationError::RowCountMismatch {
                    layer: index,
                    expected: device.rows,
                    actual: layer.buttons.len(),
                },
            );
        }
        // column check, and the individual buttons
        let ghost rows = layer@.buttons;
        let ghost check = row_check(device@, index as int);
        let mut row: usize = 0;
        while row < layer.buttons.len()
            invariant
                row <= layer.buttons.len(),
                layer.buttons.len() == device.rows,
                rows == layer@.buttons,
                check == row_check(device@, index as int),
                try_map(rows.take(row as int), check) is Ok,
            decreases layer.buttons.len() - row,
        {
            proof {
                lemma_try_map_step(rows, check, row as int);
            }
            match Self::check_row(device, index, row, &layer.buttons[row]) {
                Ok(_) => {},
                Err(e) => {
                    proof {
                        lemma_try_map_err_prefix(rows, check, row + 1);
                    }
                    return Err(e);
                },
            }
            row += 1;
        }
        proof {
            assert(rows.take(row as int) =~= rows);
        }
        // knob check
        if layer.knobs.len() != device.knobs as usize {
            return Err(
                ValidationError::KnobCountMismatch {
                    layer: index,
                    expected: device.knobs,
                    actual: layer.knobs.len(),
                },
            );
        }
        let ghost knobs = layer@.knobs;
        let ghost check = knob_check(index as int);
        let mut knob: usize = 0;
        while knob < layer.knobs.len()
            invariant
                knob <= layer.knobs.len(),
                layer.buttons.len() == device.rows,
                try_map(layer@.buttons, row_check(device@, index as int)) is Ok,
                layer.knobs.len() == device.knobs,
                knobs == layer@.knobs,
                check == knob_check(index as int),
                try_map(knobs.take(knob as int), check) is Ok,
            decreases layer.knobs.len() - knob,
        {
            proof {
                lemma_try_map_step(knobs, check, knob as int);
            }
            match Self::check_knob(index, knob, &layer.knobs[knob]) {
                Ok(_) => {},
                Err(e) => {
                    proof {
                        lemma_try_map_err_prefix(knobs, check, knob + 1);
                    }
                    return Err(e);
                },
            }
            knob += 1;
        }
        proof {
            assert(knobs.take(knob as int) =~= knobs);
        }
        Ok(())
    }

    /// Validates a whole configuration before anything is sent to the
    /// device: the orientation, the number of layers, and every layer in
    /// order, its rows and buttons before its knobs. The first fault found
    /// is the error; nothing after it is looked at.
    pub fn validate(cfg: &Macropad) -> (r: Result<(), ValidationError>)
        ensures
            outcome(r) == spec_validate_config(cfg@),
            r is Ok <==> well_formed(cfg@),
    {
        proof {
            lemma_validate_ok_iff_well_formed(cfg@);
        }
        // check orientation
        let orientation = uppercase_first(cfg.device.orientation.as_str());
        if Orientation::from_name(orientation.as_str()).is_none() {
            return Err(ValidationError::InvalidOrientation);
        }
        // check layers
        if cfg.layers.len() == 0 || cfg.layers.len() > MAX_LAYERS {
            return Err(ValidationError::LayerCountOutOfRange);
        }
        // check rows/cols/knobs
        let ghost layers = cfg@.layers;
        let ghost check = layer_check(cfg@.device);
        let mut i: usize = 0;
        while i < cfg.layers.len()
            invariant
                i <= cfg.layers.len(),
                Orientation::spec_from_name(capitalized(cfg@.device.orientation)) is Some,
                1 <= cfg.layers.len() <= MAX_LAYERS,
                spec_validate_config(cfg@) is Ok <==> well_formed(cfg@),
                layers == cfg@.layers,
                check == layer_check(cfg@.device),
                try_map(layers.take(i as int), check) is Ok,
            decreases cfg.layers.len() - i,
        {
            proof {
                lemma_try_map_step(layers, check, i as int);
            }
            match Self::check_layer(&cfg.device, i, &cfg.layers[i]) {
                Ok(_) => {},
                Err(e) => {
                    proof {
                        lemma_try_map_err_prefix(layers, check, i + 1);
                    }
                    return Err(e);
                },
            }
            i += 1;
        }
        proof {
            assert(layers.take(i as int) =~= layers);
        }
        Ok(())
    }
}

/// What it means for a configuration to be well formed, stated all at once:
/// a known orientation, one to `MAX_LAYERS` layers, and in every layer the
/// device's number of rows, columns and knobs and only well-formed bindings.
pub open spec fn well_formed(cfg: MacropadView) -> bool {
    &&& Orientation::spec_from_name(capitalized(cfg.device.orientation)) is Some
    &&& 1 <= cfg.layers.len() <= MAX_LAYERS
    &&& forall|l: int|
        0 <= l < cfg.layers.len() ==> layer_well_formed(cfg.device, #[trigger] cfg.layers[l])
}

/// What it means for a layer to be well formed.
pub open spec fn layer_well_formed(device: DeviceView, layer: LayerView) -> bool {
    &&& layer.buttons.len() == device.rows
    &&& layer.knobs.len() == device.knobs
    &&& forall|r: int|
        0 <= r < layer.buttons.len() ==> (#[trigger] layer.buttons[r]).len() == device.cols
    &&& forall|r: int, c: int|
        0 <= r < layer.buttons.len() && 0 <= c < layer.buttons[r].len() ==> well_formed_binding(
            #[trigger] layer.buttons[r][c],
        )
    &&& forall|k: int|
        0 <= k < layer.knobs.len() ==> {
            &&& well_formed_binding((#[trigger] layer.knobs[k]).ccw)
            &&& well_formed_binding(layer.knobs[k].click)
            &&& well_formed_binding(layer.knobs[k].cw)
        }
}

/// A row passes its check exactly when it has the device's number of columns
/// and only well-formed bindings.
pub proof fn lemma_row_check_ok(device: DeviceView, layer: int, row: int, bindings: Seq<Seq<char>>)
    ensures
        spec_row_check(device, layer, row, bindings) is Ok <==> (bindings.len() == device.cols
            && forall|c: int|
            0 <= c < bindings.len() ==> well_formed_binding(#[trigger] bindings[c])),
{
    let b = button_check(layer, row);
    lemma_try_map_ok(bindings, b);
    assert forall|c: int| 0 <= c < bindings.len() implies ((#[trigger] b(c, bindings[c])) is Ok
        <==> well_formed_binding(bindings[c])) by {
        lemma_ok_iff_well_formed(bindings[c]);
    }
    if spec_row_check(device, layer, row, bindings) is Ok {
        assert forall|c: int| 0 <= c < bindings.len() implies well_formed_binding(
            #[trigger] bindings[c],
        ) by {
            assert(b(c, bindings[c]) is Ok);
        }
    }
    if forall|c: int| 0 <= c < bindings.len() ==> well_formed_binding(#[trigger] bindings[c]) {
        assert forall|c: int| 0 <= c < bindings.len() implies (#[trigger] b(
            c,
            bindings[c],
        )) is Ok by {
            assert(well_formed_binding(bindings[c]));
        }
    }
}

/// A layer passes its check exactly when it is well formed.
pub proof fn lemma_layer_check_ok(device: DeviceView, index: int, layer: LayerView)
    ensures
        spec_layer_check(device, index, layer) is Ok <==> layer_well_formed(device, layer),
{
    let rows = layer.buttons;
    let f = row_check(device, index);
    lemma_try_map_ok(rows, f);
    let g = knob_check(index);
    lemma_try_map_ok(layer.knobs, g);
    assert forall|r: int| 0 <= r < rows.len() implies ((#[trigger] f(r, rows[r])) is Ok <==> (
    rows[r].len() == device.cols && forall|c: int|
        0 <= c < rows[r].len() ==> well_formed_binding(#[trigger] rows[r][c]))) by {
        lemma_row_check_ok(device, index, r, rows[r]);
    }
    assert forall|k: int| 0 <= k < layer.knobs.len() implies ((#[trigger] g(
        k,
        layer.knobs[k],
    )) is Ok <==> (well_formed_binding(layer.knobs[k].ccw) && well_formed_binding(
        layer.knobs[k].click,
    ) && well_formed_binding(layer.knobs[k].cw))) by {
        lemma_ok_iff_well_formed(layer.knobs[k].ccw);
        lemma_ok_iff_well_formed(layer.knobs[k].click);
        lemma_ok_iff_well_formed(layer.knobs[k].cw);
    }
    if spec_layer_check(device, index, layer) is Ok {
        assert forall|r: int| 0 <= r < rows.len() implies (#[trigger] rows[r]).len()
            == device.cols by {
            assert(f(r, rows[r]) is Ok);
        }
        assert forall|r: int, c: int|
            0 <= r < rows.len() && 0 <= c < rows[r].len() implies well_formed_binding(
            #[trigger] rows[r][c],
        ) by {
            assert(f(r, rows[r]) is Ok);
        }
        assert forall|k: int| 0 <= k < layer.knobs.len() implies {
            &&& well_formed_binding((#[trigger] layer.knobs[k]).ccw)
            &&& well_formed_binding(layer.knobs[k].click)
            &&& well_formed_binding(layer.knobs[k].cw)
        } by {
            assert(g(k, layer.knobs[k]) is Ok);
        }
    }
    if layer_well_formed(device, layer) {
        assert forall|r: int| 0 <= r < rows.len() implies (#[trigger] f(r, rows[r])) is Ok by {
            assert(rows[r].len() == device.cols);
        }
        assert forall|k: int| 0 <= k < layer.knobs.len() implies (#[trigger] g(
            k,
            layer.knobs[k],
        )) is Ok by {
            assert(well_formed_binding(layer.knobs[k].ccw));
        }
    }
}

/// Validation succeeds exactly on the well-formed configurations.
pub proof fn lemma_validate_ok_iff_well_formed(cfg: MacropadView)
    ensures
        spec_validate_config(cfg) is Ok <==> well_formed(cfg),
{
    let f = layer_check(cfg.device);
    lemma_try_map_ok(cfg.layers, f);
    assert forall|l: int| 0 <= l < cfg.layers.len() implies ((#[trigger] f(l, cfg.layers[l])) is Ok
        <==> layer_well_formed(cfg.device, cfg.layers[l])) by {
        lemma_layer_check_ok(cfg.device, l, cfg.layers[l]);
    }
    if well_formed(cfg) {
        assert forall|l: int| 0 <= l < cfg.layers.len() implies (#[trigger] f(
            l,
            cfg.layers[l],
        )) is Ok by {
            assert(layer_well_formed(cfg.device, cfg.layers[l]));
        }
    }
    if spec_validate_config(cfg) is Ok {
        assert forall|l: int| 0 <= l < cfg.layers.len() implies layer_well_formed(
            cfg.device,
            #[trigger] cfg.layers[l],
        ) by {
            assert(f(l, cfg.layers[l]) is Ok);
        }
    }
}

/// A layer whose number of rows differs from the device's makes validation
/// fail. Where the orientation is known, the number of layers is in range and
/// every layer before it is well formed, the error is the row-count mismatch
/// of exactly this layer.
pub proof fn lemma_row_count_mismatch(cfg: MacropadView, layer: int)
    requires
        0 <= layer < cfg.layers.len(),
        cfg.layers[layer].buttons.len() != cfg.device.rows,
    ensures
        spec_validate_config(cfg) is Err,
        ({
            &&& Orientation::spec_from_name(capitalized(cfg.device.orientation)) is Some
            &&& cfg.layers.len() <= MAX_LAYERS
            &&& forall|l: int|
                0 <= l < layer ==> layer_well_formed(cfg.device, #[trigger] cfg.layers[l])
        }) ==> spec_validate_config(cfg) == Err::<(), _>(
            ValidationErrorView::RowCountMismatch {
                layer: layer as nat,
                expected: cfg.device.rows,
                actual: cfg.layers[layer].buttons.len(),
            },
        ),
{
    let f = layer_check(cfg.device);
    assert(f(layer, cfg.layers[layer]) is Err);
    lemma_try_map_ok(cfg.layers, f);
    if forall|l: int| 0 <= l < layer ==> layer_well_formed(cfg.device, #[trigger] cfg.layers[l]) {
        assert forall|l: int| 0 <= l < layer implies (#[trigger] f(l, cfg.layers[l])) is Ok by {
            assert(layer_well_formed(cfg.device, cfg.layers[l]));
            lemma_layer_check_ok(cfg.device, l, cfg.layers[l]);
        }
        lemma_try_map_first_err(cfg.layers, f, layer);
    }
}

} // verus!
