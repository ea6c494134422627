//! Key bindings. A binding is one or more chords joined by `,`; a chord is
//! one or more key names joined by `-`. The chords of a binding are sent one
//! after the other, the keys of a chord are pressed together.

use crate::consts::MAX_KEY_PRESSES;
use crate::keyboard::{MediaCode, Modifier, WellKnownCode};
use crate::text::{
    capitalized, lemma_split_on_no_sep, split, split_on, uppercase_first, views,
};
use crate::try_map::{
    lemma_try_map_err_prefix, lemma_try_map_first_err, lemma_try_map_ok, lemma_try_map_step,
    try_map,
};
use vstd::prelude::*;

verus! {

/// A key of the vocabulary, tagged with the table it comes from.
#[derive(Clone, Copy, Debug, PartialEq, Eq, Structural)]
pub enum Key {
    Modifier(Modifier),
    WellKnown(WellKnownCode),
    Media(MediaCode),
}

/// Why a binding is not acceptable.
#[derive(Debug, PartialEq, Eq)]
pub enum BindingError {
    /// The binding is the empty text.
    EmptyBinding,
    /// A key name, given as written, is not in the vocabulary.
    UnknownKey(String),
    /// The chord with this index, counted from zero, names more than
    /// `MAX_KEY_PRESSES` keys.
    TooManyKeys(usize),
}

/// The mathematical value of a `BindingError`.
pub enum BindingErrorView {
    EmptyBinding,
    UnknownKey(Seq<char>),
    TooManyKeys(nat),
}

impl View for BindingError {
    type V = BindingErrorView;

    open spec fn view(&self) -> BindingErrorView {
        match self {
            BindingError::EmptyBinding => BindingErrorView::EmptyBinding,
            BindingError::UnknownKey(token) => BindingErrorView::UnknownKey(token@),
            BindingError::TooManyKeys(chord) => BindingErrorView::TooManyKeys(*chord as nat),
        }
    }
}

impl Key {
    /// The key that `token` names. The token is capitalised first, then looked
    /// up exactly: among the modifiers, then the media keys, then the regular
    /// keys.
    pub open spec fn spec_resolve(token: Seq<char>) -> Option<Key> {
        let name = capitalized(token);
        match Modifier::spec_from_name(name) {
            Some(m) => Some(Key::Modifier(m)),
            None => match MediaCode::spec_from_name(name) {
                Some(m) => Some(Key::Media(m)),
                None => match WellKnownCode::spec_from_name(name) {
                    Some(k) => Some(Key::WellKnown(k)),
                    None => None,
                },
            },
        }
    }

    /// What this key contributes to the modifier byte of a key press.
    pub open spec fn spec_modifier_byte(self) -> u8 {
        match self {
            Key::Modifier(m) => m.spec_code(),
            Key::WellKnown(_) => 0,
            Key::Media(_) => 0,
        }
    }

    /// What this key contributes to the key byte of a key press.
    pub open spec fn spec_key_byte(self) -> u8 {
        match self {
            Key::Modifier(_) => 0,
            Key::WellKnown(k) => k.spec_code(),
            Key::Media(m) => m.spec_code(),
        }
    }

    /// Looks up the key that `token` names.
    pub fn resolve(token: &str) -> (r: Option<Key>)
        ensures
            r == Key::spec_resolve(token@),
    {
        let name = uppercase_first(token);
        if let Some(m) = Modifier::from_name(name.as_str()) {
            return Some(Key::Modifier(m));
        }
        if let Some(m) = MediaCode::from_name(name.as_str()) {
            return Some(Key::Media(m));
        }
        if let Some(k) = WellKnownCode::from_name(name.as_str()) {
            return Some(Key::WellKnown(k));
        }
        None
    }

    /// What this key contributes to the modifier byte of a key press.
    pub fn modifier_byte(self) -> (r: u8)
        ensures
            r == self.spec_modifier_byte(),
    {
        match self {
            Key::Modifier(m) => m.code(),
            Key::WellKnown(_) => 0,
            Key::Media(_) => 0,
        }
    }

    /// What this key contributes to the key byte of a key press.
    pub fn key_byte(self) -> (r: u8)
        ensures
            r == self.spec_key_byte(),
    {
        match self {
            Key::Modifier(_) => 0,
            Key::WellKnown(k) => k.code(),
            Key::Media(m) => m.code(),
        }
    }
}

/// Resolving one token of a chord.
pub open spec fn token_key() -> spec_fn(int, Seq<char>) -> Result<Key, BindingErrorView> {
    |i: int, token: Seq<char>|
        match Key::spec_resolve(token) {
            Some(key) => Ok(key),
            None => Err(BindingErrorView::UnknownKey(token)),
        }
}

/// The keys of the chord with the given index. A chord with more than
/// `MAX_KEY_PRESSES` names is refused before any name is looked up; otherwise
/// the first unknown name is the error.
pub open spec fn spec_chord_keys(index: int, chord: Seq<char>) -> Result<
    Seq<Key>,
    BindingErrorView,
> {
    let tokens = split_on(chord, '-');
    if tokens.len() > MAX_KEY_PRESSES {
        Err(BindingErrorView::TooManyKeys(index as nat))
    } else {
        try_map(tokens, token_key())
    }
}

/// Parsing one chord of a binding.
pub open spec fn chord_keys() -> spec_fn(int, Seq<char>) -> Result<Seq<Key>, BindingErrorView> {
    |i: int, chord: Seq<char>| spec_chord_keys(i, chord)
}

/// The chords of a binding, each as its keys. The empty text is no binding;
/// otherwise the chords are parsed in order and the first error is the result.
pub open spec fn spec_parse(binding: Seq<char>) -> Result<Seq<Seq<Key>>, BindingErrorView> {
    if binding.len() == 0 {
        Err(BindingErrorView::EmptyBinding)
    } else {
        try_map(split_on(binding, ','), chord_keys())
    }
}

/// The modifier codes of `keys`, combined bit by bit.
pub open spec fn modifier_bits(keys: Seq<Key>) -> u8
    decreases keys.len(),
{
    if keys.len() == 0 {
        0
    } else {
        modifier_bits(keys.drop_last()) | keys.last().spec_modifier_byte()
    }
}

/// The codes of the keys of `keys` that are not modifiers, in order.
pub open spec fn key_bytes(keys: Seq<Key>) -> Seq<u8>
    decreases keys.len(),
{
    if keys.len() == 0 {
        Seq::empty()
    } else if keys.last() is Modifier {
        key_bytes(keys.drop_last())
    } else {
        key_bytes(keys.drop_last()).push(keys.last().spec_key_byte())
    }
}

/// One key press for each byte of `pressed`, each with the modifiers `held`.
pub open spec fn presses(held: u8, pressed: Seq<u8>) -> Seq<(u8, u8)> {
    Seq::new(pressed.len(), |i: int| (held, pressed[i]))
}

/// The key presses that one chord stands for, as (modifier byte, key byte)
/// pairs. All modifiers of the chord are held during each press. Each key that
/// is not a modifier is one press; a chord of modifiers alone is one press
/// without a key.
pub open spec fn chord_pairs(keys: Seq<Key>) -> Seq<(u8, u8)> {
    let held = modifier_bits(keys);
    let pressed = key_bytes(keys);
    if pressed.len() == 0 {
        seq![(held, 0u8)]
    } else {
        presses(held, pressed)
    }
}

/// The key presses of all chords, in chord order.
pub open spec fn binding_pairs(chords: Seq<Seq<Key>>) -> Seq<(u8, u8)>
    decreases chords.len(),
{
    if chords.len() == 0 {
        Seq::empty()
    } else {
        binding_pairs(chords.drop_last()) + chord_pairs(chords.last())
    }
}

/// Whether a binding is acceptable, and if not, why.
pub open spec fn spec_validate(binding: Seq<char>) -> Result<(), BindingErrorView> {
    match spec_parse(binding) {
        Ok(_) => Ok(()),
        Err(e) => Err(e),
    }
}

/// The key presses a binding stands for, or why it is not acceptable.
pub open spec fn spec_encode(binding: Seq<char>) -> Result<Seq<(u8, u8)>, BindingErrorView> {
    match spec_parse(binding) {
        Ok(chords) => Ok(binding_pairs(chords)),
        Err(e) => Err(e),
    }
}

/// The views of parsed chords.
pub open spec fn key_seqs(chords: Seq<Vec<Key>>) -> Seq<Seq<Key>> {
    chords.map_values(|c: Vec<Key>| c@)
}

/// A chord stands for at least one key press, and for no more key presses
/// than it has keys.
pub proof fn lemma_chord_pairs_len(keys: Seq<Key>)
    ensures
        key_bytes(keys).len() <= keys.len(),
        chord_pairs(keys).len() == if key_bytes(keys).len() == 0 {
            1nat
        } else {
            key_bytes(keys).len()
        },
    decreases keys.len(),
{
    if keys.len() > 0 {
        lemma_chord_pairs_len(keys.drop_last());
    }
}

/// A binding stands for at least as many key presses as it has chords.
pub proof fn lemma_binding_pairs_len(chords: Seq<Seq<Key>>)
    ensures
        binding_pairs(chords).len() >= chords.len(),
    decreases chords.len(),
{
    if chords.len() > 0 {
        lemma_binding_pairs_len(chords.drop_last());
        lemma_chord_pairs_len(chords.last());
    }
}

/// Where every chord has at most one key that is not a modifier, the binding
/// stands for exactly one key press per chord.
pub proof fn lemma_one_press_per_chord(chords: Seq<Seq<Key>>)
    requires
        forall|i: int| 0 <= i < chords.len() ==> key_bytes(#[trigger] chords[i]).len() <= 1,
    ensures
        binding_pairs(chords).len() == chords.len(),
    decreases chords.len(),
{
    if chords.len() > 0 {
        let init = chords.drop_last();
        assert forall|i: int| 0 <= i < init.len() implies key_bytes(#[trigger] init[i]).len()
            <= 1 by {
            assert(init[i] == chords[i]);
        }
        lemma_one_press_per_chord(init);
        lemma_chord_pairs_len(chords.last());
    }
}

/// A parsed binding has one chord for each piece between commas, and each
/// chord has one key for each piece between hyphens, `MAX_KEY_PRESSES` at most.
pub proof fn lemma_parse_shape(binding: Seq<char>)
    ensures
        spec_parse(binding) matches Ok(chords) ==> {
            &&& chords.len() == split_on(binding, ',').len()
            &&& forall|i: int|
                0 <= i < chords.len() ==> (#[trigger] chords[i]).len() == split_on(
                    split_on(binding, ',')[i],
                    '-',
                ).len() && chords[i].len() <= MAX_KEY_PRESSES
        },
{
    if let Ok(chords) = spec_parse(binding) {
        let pieces = split_on(binding, ',');
        lemma_try_map_ok(pieces, chord_keys());
        assert forall|i: int| 0 <= i < chords.len() implies (#[trigger] chords[i]).len()
            == split_on(pieces[i], '-').len() && chords[i].len() <= MAX_KEY_PRESSES by {
            assert(chord_keys()(i, pieces[i]) == Ok::<_, BindingErrorView>(chords[i]));
            lemma_try_map_ok(split_on(pieces[i], '-'), token_key());
        }
    }
}

/// What it means for a chord to be well formed: it has no more than
/// `MAX_KEY_PRESSES` names, and each of them is in the vocabulary.
pub open spec fn well_formed_chord(chord: Seq<char>) -> bool {
    &&& split_on(chord, '-').len() <= MAX_KEY_PRESSES
    &&& forall|t: int|
        0 <= t < split_on(chord, '-').len() ==> Key::spec_resolve(
            #[trigger] split_on(chord, '-')[t],
        ) is Some
}

/// What it means for a binding to be well formed, stated all at once: it is
/// not empty and each of its chords is well formed.
pub open spec fn well_formed_binding(binding: Seq<char>) -> bool {
    &&& binding.len() > 0
    &&& forall|j: int|
        0 <= j < split_on(binding, ',').len() ==> well_formed_chord(
            #[trigger] split_on(binding, ',')[j],
        )
}

/// A chord parses exactly when it is well formed.
pub proof fn lemma_chord_ok_iff_well_formed(index: int, chord: Seq<char>)
    ensures
        spec_chord_keys(index, chord) is Ok <==> well_formed_chord(chord),
{
    let names = split_on(chord, '-');
    let g = token_key();
    lemma_try_map_ok(names, g);
    if spec_chord_keys(index, chord) is Ok {
        assert forall|t: int| 0 <= t < names.len() implies Key::spec_resolve(
            #[trigger] names[t],
        ) is Some by {
            assert(g(t, names[t]) is Ok);
        }
    }
    if well_formed_chord(chord) {
        assert forall|t: int| 0 <= t < names.len() implies (#[trigger] g(t, names[t])) is Ok by {
            assert(Key::spec_resolve(names[t]) is Some);
        }
    }
}

/// `validate` and `encode` succeed exactly on the well-formed bindings.
pub proof fn lemma_ok_iff_well_formed(binding: Seq<char>)
    ensures
        spec_validate(binding) is Ok <==> well_formed_binding(binding),
        spec_encode(binding) is Ok <==> well_formed_binding(binding),
{
    let pieces = split_on(binding, ',');
    let f = chord_keys();
    lemma_try_map_ok(pieces, f);
    assert forall|j: int| 0 <= j < pieces.len() implies ((#[trigger] f(j, pieces[j])) is Ok
        <==> well_formed_chord(pieces[j])) by {
        lemma_chord_ok_iff_well_formed(j, pieces[j]);
    }
    if well_formed_binding(binding) {
        assert forall|j: int| 0 <= j < pieces.len() implies (#[trigger] f(j, pieces[j])) is Ok by {
            assert(well_formed_chord(pieces[j]));
        }
    }
    if spec_parse(binding) is Ok {
        assert forall|j: int| 0 <= j < pieces.len() implies well_formed_chord(
            #[trigger] pieces[j],
        ) by {
            assert(f(j, pieces[j]) is Ok);
        }
    }
}

/// A chord that names more than `MAX_KEY_PRESSES` keys makes its binding
/// unacceptable, to `validate` and to `encode` alike. Where every chord
/// before it is acceptable, the error names this chord.
pub proof fn lemma_too_many_keys(binding: Seq<char>, chord: int)
    requires
        0 <= chord < split_on(binding, ',').len(),
        split_on(split_on(binding, ',')[chord], '-').len() > MAX_KEY_PRESSES,
    ensures
        spec_validate(binding) is Err,
        spec_encode(binding) is Err,
        (forall|k: int|
            0 <= k < chord ==> (#[trigger] spec_chord_keys(k, split_on(binding, ',')[k])) is Ok)
            ==> spec_validate(binding) == Err::<(), _>(
            BindingErrorView::TooManyKeys(chord as nat),
        ) && spec_encode(binding) == Err::<Seq<(u8, u8)>, _>(
            BindingErrorView::TooManyKeys(chord as nat),
        ),
{
    let pieces = split_on(binding, ',');
    let f = chord_keys();
    assert(f(chord, pieces[chord]) is Err);
    if binding.len() == 0 {
        assert(pieces =~= seq![Seq::<char>::empty()]);
        assert(split_on(pieces[0], '-') =~= seq![Seq::<char>::empty()]);
    }
    lemma_try_map_ok(pieces, f);
    if forall|k: int| 0 <= k < chord ==> (#[trigger] spec_chord_keys(k, pieces[k])) is Ok {
        assert forall|k: int| 0 <= k < chord implies (#[trigger] f(k, pieces[k])) is Ok by {
            assert(spec_chord_keys(k, pieces[k]) is Ok);
        }
        lemma_try_map_first_err(pieces, f, chord);
    }
}

/// A name that is not in the vocabulary makes its binding unacceptable, to
/// `validate` and to `encode` alike. Where the binding is not empty, every
/// chord before the name's chord is acceptable, that chord has no more than
/// `MAX_KEY_PRESSES` names and every name before it in the chord is known,
/// the error holds this name, as written.
pub proof fn lemma_unknown_key(binding: Seq<char>, chord: int, token: int)
    requires
        0 <= chord < split_on(binding, ',').len(),
        0 <= token < split_on(split_on(binding, ',')[chord], '-').len(),
        Key::spec_resolve(split_on(split_on(binding, ',')[chord], '-')[token]) is None,
    ensures
        spec_validate(binding) is Err,
        spec_encode(binding) is Err,
        ({
            let names = split_on(split_on(binding, ',')[chord], '-');
            &&& binding.len() > 0
            &&& forall|k: int|
                0 <= k < chord ==> (#[trigger] spec_chord_keys(k, split_on(binding, ',')[k])) is Ok
            &&& names.len() <= MAX_KEY_PRESSES
            &&& forall|u: int| 0 <= u < token ==> Key::spec_resolve(#[trigger] names[u]) is Some
        }) ==> {
            let name = split_on(split_on(binding, ',')[chord], '-')[token];
            &&& spec_validate(binding) == Err::<(), _>(BindingErrorView::UnknownKey(name))
            &&& spec_encode(binding) == Err::<Seq<(u8, u8)>, _>(
                BindingErrorView::UnknownKey(name),
            )
        },
{
    let pieces = split_on(binding, ',');
    let names = split_on(pieces[chord], '-');
    let f = chord_keys();
    let g = token_key();
    assert(g(token, names[token]) is Err);
    lemma_try_map_ok(names, g);
    assert(f(chord, pieces[chord]) is Err);
    lemma_try_map_ok(pieces, f);
    if binding.len() > 0 && names.len() <= MAX_KEY_PRESSES && (forall|k: int|
        0 <= k < chord ==> (#[trigger] spec_chord_keys(k, pieces[k])) is Ok) && (forall|u: int|
        0 <= u < token ==> Key::spec_resolve(#[trigger] names[u]) is Some) {
        assert forall|u: int| 0 <= u < token implies (#[trigger] g(u, names[u])) is Ok by {
            assert(Key::spec_resolve(names[u]) is Some);
        }
        lemma_try_map_first_err(names, g, token);
        assert forall|k: int| 0 <= k < chord implies (#[trigger] f(k, pieces[k])) is Ok by {
            assert(spec_chord_keys(k, pieces[k]) is Ok);
        }
        lemma_try_map_first_err(pieces, f, chord);
    }
}

/// A binding that is one name alone, with no comma and no hyphen in it,
/// stands for one key press: the key's modifier byte and its key byte, of
/// which one is zero.
pub proof fn lemma_single_key(binding: Seq<char>, key: Key)
    requires
        binding.len() > 0,
        forall|i: int| 0 <= i < binding.len() ==> binding[i] != ',' && binding[i] != '-',
        Key::spec_resolve(binding) == Some(key),
    ensures
        spec_encode(binding) == Ok::<_, BindingErrorView>(
            seq![(key.spec_modifier_byte(), key.spec_key_byte())],
        ),
        key.spec_modifier_byte() == 0 || key.spec_key_byte() == 0,
{
    lemma_split_on_no_sep(binding, ',');
    lemma_split_on_no_sep(binding, '-');
    let whole = seq![binding];
    assert(whole.drop_last() =~= Seq::<Seq<char>>::empty());
    assert(try_map(whole.drop_last(), token_key()) == Ok::<_, BindingErrorView>(
        Seq::<Key>::empty(),
    ));
    assert(try_map(whole, token_key()) == Ok::<_, BindingErrorView>(
        Seq::<Key>::empty().push(key),
    ));
    let keys = Seq::<Key>::empty().push(key);
    assert(try_map(whole.drop_last(), chord_keys()) == Ok::<_, BindingErrorView>(
        Seq::<Seq<Key>>::empty(),
    ));
    assert(spec_parse(binding) == Ok::<_, BindingErrorView>(Seq::<Seq<Key>>::empty().push(keys)));
    let chords = Seq::<Seq<Key>>::empty().push(keys);
    assert(chords.drop_last() =~= Seq::<Seq<Key>>::empty());
    assert(keys.drop_last() =~= Seq::<Key>::empty());
    let code = key.spec_modifier_byte();
    assert(0u8 | code == code) by (bit_vector);
    assert(modifier_bits(keys.drop_last()) == 0);
    assert(modifier_bits(keys) == code);
    assert(key_bytes(keys.drop_last()) =~= Seq::<u8>::empty());
    assert(binding_pairs(chords.drop_last()) =~= Seq::<(u8, u8)>::empty());
    assert(binding_pairs(chords) =~= chord_pairs(keys));
    assert(chord_pairs(keys) =~= seq![(key.spec_modifier_byte(), key.spec_key_byte())]);
}

/// Parses and encodes key bindings.
pub struct ChordEncoder {}

impl ChordEncoder {
    /// Parses the chord with the given index into its keys.
    pub fn parse_chord(index: usize, chord: &str) -> (r: Result<Vec<Key>, BindingError>)
        ensures
            match r {
                Ok(keys) => spec_chord_keys(index as int, chord@) == Ok::<_, BindingErrorView>(
                    keys@,
                ),
                Err(e) => spec_chord_keys(index as int, chord@) == Err::<Seq<Key>, _>(e@),
            },
    {
        let tokens = split(chord, '-');
        if tokens.len() > MAX_KEY_PRESSES {
            return Err(BindingError::TooManyKeys(index));
        }
        let mut keys: Vec<Key> = Vec::new();
        let mut i: usize = 0;
        while i < tokens.len()
            invariant
                i <= tokens.len(),
                tokens.len() <= MAX_KEY_PRESSES,
                views(tokens@) == split_on(chord@, '-'),
                try_map(views(tokens@).take(i as int), token_key()) == Ok::<_, BindingErrorView>(
                    keys@,
                ),
            decreases tokens.len() - i,
        {
            proof {
                lemma_try_map_step(views(tokens@), token_key(), i as int);
            }
            match Key::resolve(tokens[i]) {
                Some(key) => {
                    keys.push(key);
                },
                None => {
                    proof {
                        assert(views(tokens@)[i as int] == tokens@[i as int]@);
                        assert(token_key()(i as int, views(tokens@)[i as int]) is Err);
                        lemma_try_map_err_prefix(views(tokens@), token_key(), i + 1);
                    }
                    return Err(BindingError::UnknownKey(tokens[i].to_owned()));
                },
            }
            i += 1;
        }
        proof {
            assert(views(tokens@).take(i as int) =~= views(tokens@));
        }
        Ok(keys)
    }

    /// Parses a binding into its chords, each as its keys.
    pub fn parse(binding: &str) -> (r: Result<Vec<Vec<Key>>, BindingError>)
        ensures
            match r {
                Ok(chords) => spec_parse(binding@) == Ok::<_, BindingErrorView>(key_seqs(chords@)),
                Err(e) => spec_parse(binding@) == Err::<Seq<Seq<Key>>, _>(e@),
            },
    {
        if binding.is_empty() {
            return Err(BindingError::EmptyBinding);
        }
        let chords = split(binding, ',');
        let mut parsed: Vec<Vec<Key>> = Vec::new();
        let mut i: usize = 0;
        proof {
            assert(key_seqs(parsed@) =~= Seq::<Seq<Key>>::empty());
        }
        while i < chords.len()
            invariant
                i <= chords.len(),
                binding@.len() != 0,
                views(chords@) == split_on(binding@, ','),
                try_map(views(chords@).take(i as int), chord_keys()) == Ok::<_, BindingErrorView>(
                    key_seqs(parsed@),
                ),
            decreases chords.len() - i,
        {
            proof {
                lemma_try_map_step(views(chords@), chord_keys(), i as int);
            }
            match Self::parse_chord(i, chords[i]) {
                Ok(keys) => {
                    proof {
                        assert(key_seqs(parsed@.push(keys)) =~= key_seqs(parsed@).push(keys@));
                    }
                    parsed.push(keys);
                },
                Err(e) => {
                    proof {
                        lemma_try_map_err_prefix(views(chords@), chord_keys(), i + 1);
                    }
                    return Err(e);
                },
            }
            i += 1;
        }
        proof {
            assert(views(chords@).take(i as int) =~= views(chords@));
        }
        Ok(parsed)
    }

    /// Appends the key presses of one chord to `out`.
    pub fn push_chord_pairs(keys: &Vec<Key>, out: &mut Vec<(u8, u8)>)
        ensures
            final(out)@ == old(out)@ + chord_pairs(keys@),
    {
        let ghost before = out@;
        let mut held: u8 = 0;
        let mut i: usize = 0;
        while i < keys.len()
            invariant
                i <= keys.len(),
                held == modifier_bits(keys@.take(i as int)),
            decreases keys.len() - i,
        {
            proof {
                assert(keys@.take(i + 1).drop_last() =~= keys@.take(i as int));
            }
            held = held | keys[i].modifier_byte();
            i += 1;
        }
        proof {
            assert(keys@.take(i as int) =~= keys@);
        }
        let mut any = false;
        i = 0;
        while i < keys.len()
            invariant
                i <= keys.len(),
                any == (key_bytes(keys@.take(i as int)).len() > 0),
                out@ == before + presses(held, key_bytes(keys@.take(i as int))),
            decreases keys.len() - i,
        {
            let ghost done = key_bytes(keys@.take(i as int));
            proof {
                assert(keys@.take(i + 1).drop_last() =~= keys@.take(i as int));
            }
            match keys[i] {
                Key::Modifier(_) => {},
                key => {
                    let byte = key.key_byte();
                    proof {
                        assert(presses(held, done.push(byte)) =~= presses(held, done).push(
                            (held, byte),
                        ));
                    }
                    out.push((held, byte));
                    any = true;
                },
            }
            i += 1;
        }
        proof {
            assert(keys@.take(i as int) =~= keys@);
        }
        if !any {
            proof {
                assert(presses(held, key_bytes(keys@)) =~= Seq::<(u8, u8)>::empty());
                assert(before.push((held, 0u8)) =~= before + seq![(held, 0u8)]);
            }
            out.push((held, 0));
        }
    }

    /// The key presses of parsed chords, in chord order.
    pub fn pairs(chords: &Vec<Vec<Key>>) -> (out: Vec<(u8, u8)>)
        ensures
            out@ == binding_pairs(key_seqs(chords@)),
    {
        let mut out: Vec<(u8, u8)> = Vec::new();
        let mut i: usize = 0;
        while i < chords.len()
            invariant
                i <= chords.len(),
                out@ == binding_pairs(key_seqs(chords@).take(i as int)),
            decreases chords.len() - i,
        {
            proof {
                assert(key_seqs(chords@).take(i + 1).drop_last() =~= key_seqs(chords@).take(
                    i as int,
                ));
            }
            Self::push_chord_pairs(&chords[i], &mut out);
            i += 1;
        }
        proof {
            assert(key_seqs(chords@).take(i as int) =~= key_seqs(chords@));
        }
        out
    }

    /// Turns a binding into its key presses, as (modifier byte, key
    /// byte) pairs in the order in which they are sent. Fails exactly as
    /// `validate` does.
    pub fn encode(binding: &str) -> (r: Result<Vec<(u8, u8)>, BindingError>)
        ensures
            match r {
                Ok(pairs) => spec_encode(binding@) == Ok::<_, BindingErrorView>(pairs@),
                Err(e) => spec_encode(binding@) == Err::<Seq<(u8, u8)>, _>(e@),
            },
    {
        match Self::parse(binding) {
            Ok(chords) => Ok(Self::pairs(&chords)),
            Err(e) => Err(e),
        }
    }

    /// Checks that a binding is acceptable: it is not empty, no chord names
    /// more than `MAX_KEY_PRESSES` keys, and every name is in the vocabulary.
    /// The first fault found, chord by chord, is the error.
    pub fn validate(binding: &str) -> (r: Result<(), BindingError>)
        ensures
            match r {
                Ok(_) => spec_validate(binding@) is Ok,
                Err(e) => spec_validate(binding@) == Err::<(), _>(e@),
            },
    {
        match Self::parse(binding) {
            Ok(_) => Ok(()),
            Err(e) => Err(e),
        }
    }
}

} // verus!
