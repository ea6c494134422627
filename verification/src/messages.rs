//! The reports that are written to the device. Every report is `REPORT_LEN`
//! bytes long and starts with `REPORT_ID`.

use crate::chord::{
    binding_pairs, key_bytes, key_seqs, lemma_binding_pairs_len, lemma_one_press_per_chord,
    spec_parse, BindingError, BindingErrorView, ChordEncoder,
};
use crate::consts::{MAX_KEY_PRESSES, REPORT_ID, REPORT_LEN};
use crate::keyboard::LedColor;
use vstd::prelude::*;

verus! {

/// Why a key binding could not be turned into a report.
#[derive(Debug, PartialEq, Eq)]
pub enum EncodingError {
    /// The binding itself is not acceptable.
    Binding(BindingError),
    /// The binding stands for more than `MAX_KEY_PRESSES` key presses, which
    /// is more than one report can carry.
    Overflow,
}

/// The mathematical value of an `EncodingError`.
pub enum EncodingErrorView {
    Binding(BindingErrorView),
    Overflow,
}

impl View for EncodingError {
    type V = EncodingErrorView;

    open spec fn view(&self) -> EncodingErrorView {
        match self {
            EncodingError::Binding(e) => EncodingErrorView::Binding(e@),
            EncodingError::Overflow => EncodingErrorView::Overflow,
        }
    }
}

/// `n` zero bytes.
pub open spec fn zeros(n: nat) -> Seq<u8> {
    Seq::new(n, |i: int| 0u8)
}

/// What every report has in common: its length and its first byte.
pub open spec fn is_report(bytes: Seq<u8>) -> bool {
    bytes.len() == REPORT_LEN && bytes[0] == REPORT_ID
}

/// The report that asks the device for the key mappings of one layer.
pub open spec fn read_config_report(keys: u8, encoders: u8, layer: u8) -> Seq<u8> {
    seq![
        0x03, 0xfa, keys, encoders, layer, 0x02, 0xe0, 0xcb, 0x80, 0x00, 0xa0, 0xcc, 0x80,
        0x00, 0x7c, 0xf2, 0x02, 0x69, 0x00, 0x00, 0x00, 0x00, 0x4d, 0x00, 0x2c, 0x02, 0xa0,
        0xcc, 0x80, 0x00, 0xe8, 0x00, 0x00, 0x00, 0xb9, 0x00, 0x00, 0x00, 0x00, 0x00, 0x00,
        0x00, 0x90, 0xcc, 0x80, 0x00, 0x20, 0xcd, 0x80, 0x00, 0xc0, 0x84, 0x26, 0x02, 0xa0,
        0x62, 0x2f, 0x02, 0xc0, 0xcc, 0x80, 0x00, 0xc7, 0xb6, 0xc2,
    ]
}

/// The report that asks the device what type of macropad it is.
pub open spec fn device_type_report() -> Seq<u8> {
    seq![
        0x03, 0xfb, 0xfb, 0xfb, 0x1f, 0x02, 0x3c, 0xd0, 0x80, 0x00, 0xec, 0xcf, 0x80, 0x00,
        0xcc, 0xd2, 0x9b, 0x00, 0xf0, 0xcf, 0x80, 0x00, 0x3c, 0xd0, 0x80, 0x00, 0x56, 0x83,
        0xd2, 0x7b, 0xd0, 0x0d, 0x48, 0x00, 0x0c, 0xd0, 0x80, 0x00, 0xa8, 0x3d, 0x34, 0x02,
        0x48, 0xd0, 0x80, 0x00, 0x70, 0xf5, 0x1e, 0x62, 0x98, 0xda, 0x11, 0x62, 0x0c, 0x80,
        0x00, 0x00, 0x00, 0x82, 0x26, 0x02, 0xff, 0xff, 0xff,
    ]
}

/// The report that ends programming: a four-byte header, then zeros.
pub open spec fn end_program_report() -> Seq<u8> {
    seq![0x03u8, 0xfd, 0xfe, 0xff] + zeros(61)
}

/// The report that sets the backlight: the colour's code and the mode share
/// byte 12, everything after it is zero.
pub open spec fn led_report(mode: u8, color: LedColor) -> Seq<u8> {
    seq![0x03u8, 0xfe, 0xb0, 0x01, 0x08, 0x00, 0x00, 0x00, 0x00, 0x00, 0x01, 0x00]
        + seq![color.spec_code() | mode] + zeros(52)
}

/// The bytes of a sequence of key presses: modifier byte, then key byte, for
/// each press in order.
pub open spec fn pair_bytes(pairs: Seq<(u8, u8)>) -> Seq<u8>
    decreases pairs.len(),
{
    if pairs.len() == 0 {
        Seq::empty()
    } else {
        pair_bytes(pairs.drop_last()).push(pairs.last().0).push(pairs.last().1)
    }
}

/// The report that binds key presses to a key: an eleven-byte header that
/// ends in the number of chords, the key presses, zero pairs up to
/// `MAX_KEY_PRESSES + 1` pairs in all, and eighteen zero bytes.
pub open spec fn key_report(key_pos: u8, layer: u8, chords: u8, pairs: Seq<(u8, u8)>) -> Seq<u8>
    recommends
        pairs.len() <= MAX_KEY_PRESSES,
{
    seq![0x03u8, 0xfd, key_pos, layer, 0x01, 0x00, 0x00, 0x00, 0x00, 0x00, chords]
        + pair_bytes(pairs) + zeros((2 * (MAX_KEY_PRESSES - pairs.len() + 1)) as nat) + zeros(18)
}

/// The report that binds `key_chord` to a key, or why there is none. A
/// binding that is not acceptable fails as it does on validation; one that
/// stands for more than `MAX_KEY_PRESSES` key presses does not fit.
pub open spec fn spec_build_key_msg(key_chord: Seq<char>, layer: u8, key_pos: u8) -> Result<
    Seq<u8>,
    EncodingErrorView,
> {
    match spec_parse(key_chord) {
        Err(e) => Err(EncodingErrorView::Binding(e)),
        Ok(chords) => {
            let pairs = binding_pairs(chords);
            if pairs.len() > MAX_KEY_PRESSES {
                Err(EncodingErrorView::Overflow)
            } else {
                Ok(key_report(key_pos, layer, chords.len() as u8, pairs))
            }
        },
    }
}

/// Each key press takes two bytes: its modifier byte at the even offset,
/// its key byte at the odd one.
pub proof fn lemma_pair_bytes(pairs: Seq<(u8, u8)>)
    ensures
        pair_bytes(pairs).len() == 2 * pairs.len(),
        forall|i: int|
            0 <= i < pairs.len() ==> pair_bytes(pairs)[2 * i] == (#[trigger] pairs[i]).0
                && pair_bytes(pairs)[2 * i + 1] == pairs[i].1,
    decreases pairs.len(),
{
    if pairs.len() > 0 {
        let init = pairs.drop_last();
        lemma_pair_bytes(init);
        assert forall|i: int| 0 <= i < pairs.len() implies pair_bytes(pairs)[2 * i] == (
        #[trigger] pairs[i]).0 && pair_bytes(pairs)[2 * i + 1] == pairs[i].1 by {
            if i < init.len() {
                assert(init[i] == pairs[i]);
            }
        }
    }
}

/// The layout of a key report, byte by byte. It is a report; the header
/// holds the key's position, then the layer, and ends in the number of
/// chords at offset 10; key press `i` stands at offsets `11 + 2 * i` and
/// `12 + 2 * i`; every byte after the last key press is zero, so at least
/// one zero pair always follows the key presses.
pub proof fn lemma_key_report_layout(key_pos: u8, layer: u8, chords: u8, pairs: Seq<(u8, u8)>)
    requires
        pairs.len() <= MAX_KEY_PRESSES,
    ensures
        ({
            let report = key_report(key_pos, layer, chords, pairs);
            &&& is_report(report)
            &&& report[1] == 0xfd
            &&& report[2] == key_pos
            &&& report[3] == layer
            &&& report[4] == 0x01
            &&& forall|i: int| 5 <= i < 10 ==> report[i] == 0
            &&& report[10] == chords
            &&& forall|i: int|
                0 <= i < pairs.len() ==> report[11 + 2 * i] == (#[trigger] pairs[i]).0 && report[12
                    + 2 * i] == pairs[i].1
            &&& forall|i: int| 11 + 2 * pairs.len() <= i < REPORT_LEN ==> report[i] == 0
        }),
{
    lemma_pair_bytes(pairs);
}

/// A binding that is acceptable and stands for no more than
/// `MAX_KEY_PRESSES` key presses always gets its report, of `REPORT_LEN`
/// bytes. This is so in particular for a binding of no more than
/// `MAX_KEY_PRESSES` chords, each with at most one key that is not a
/// modifier.
pub proof fn lemma_key_msg_fits(key_chord: Seq<char>, layer: u8, key_pos: u8)
    requires
        spec_parse(key_chord) is Ok,
        binding_pairs(spec_parse(key_chord)->Ok_0).len() <= MAX_KEY_PRESSES || ({
            let chords = spec_parse(key_chord)->Ok_0;
            &&& chords.len() <= MAX_KEY_PRESSES
            &&& forall|i: int| 0 <= i < chords.len() ==> key_bytes(#[trigger] chords[i]).len() <= 1
        }),
    ensures
        spec_build_key_msg(key_chord, layer, key_pos) matches Ok(msg) && msg.len() == REPORT_LEN,
{
    let chords = spec_parse(key_chord)->Ok_0;
    let pairs = binding_pairs(chords);
    if pairs.len() > MAX_KEY_PRESSES {
        lemma_one_press_per_chord(chords);
    }
    lemma_key_report_layout(key_pos, layer, chords.len() as u8, pairs);
}

/// Builds the reports that are written to the device.
pub struct Messages {}

impl Messages {
    /// Message to read the key mappings from the macropad.
    ///
    /// `keys` is the number of keys on the macropad, `encoders` the number of
    /// rotary encoders, `layer` the layer to read the configuration for.
    pub fn read_config(keys: u8, encoders: u8, layer: u8) -> (msg: Vec<u8>)
        ensures
            msg@ == read_config_report(keys, encoders, layer),
            is_report(msg@),
    {
        let msg = vec![
            0x03, 0xfa, keys, encoders, layer, 0x02, 0xe0, 0xcb, 0x80, 0x00, 0xa0, 0xcc, 0x80,
            0x00, 0x7c, 0xf2, 0x02, 0x69, 0x00, 0x00, 0x00, 0x00, 0x4d, 0x00, 0x2c, 0x02, 0xa0,
            0xcc, 0x80, 0x00, 0xe8, 0x00, 0x00, 0x00, 0xb9, 0x00, 0x00, 0x00, 0x00, 0x00, 0x00,
            0x00, 0x90, 0xcc, 0x80, 0x00, 0x20, 0xcd, 0x80, 0x00, 0xc0, 0x84, 0x26, 0x02, 0xa0,
            0x62, 0x2f, 0x02, 0xc0, 0xcc, 0x80, 0x00, 0xc7, 0xb6, 0xc2,
        ];
        assert(msg@ =~= read_config_report(keys, encoders, layer));
        msg
    }

    /// Message to read what type of macropad is connected. It takes no
    /// argument and is the same sequence of bytes on every call.
    pub fn device_type() -> (msg: Vec<u8>)
        ensures
            msg@ == device_type_report(),
            is_report(msg@),
    {
        let msg = vec![
            0x03, 0xfb, 0xfb, 0xfb, 0x1f, 0x02, 0x3c, 0xd0, 0x80, 0x00, 0xec, 0xcf, 0x80, 0x00,
            0xcc, 0xd2, 0x9b, 0x00, 0xf0, 0xcf, 0x80, 0x00, 0x3c, 0xd0, 0x80, 0x00, 0x56, 0x83,
            0xd2, 0x7b, 0xd0, 0x0d, 0x48, 0x00, 0x0c, 0xd0, 0x80, 0x00, 0xa8, 0x3d, 0x34, 0x02,
            0x48, 0xd0, 0x80, 0x00, 0x70, 0xf5, 0x1e, 0x62, 0x98, 0xda, 0x11, 0x62, 0x0c, 0x80,
            0x00, 0x00, 0x00, 0x82, 0x26, 0x02, 0xff, 0xff, 0xff,
        ];
        assert(msg@ =~= device_type_report());
        msg
    }

    /// Message sent to the device when it is done being programmed. This
    /// makes the device store the keys in non-volatile memory. It takes no
    /// argument and is the same sequence of bytes on every call.
    pub fn end_program() -> (msg: Vec<u8>)
        ensures
            msg@ == end_program_report(),
            is_report(msg@),
    {
        let msg = vec![
            0x03, 0xfd, 0xfe, 0xff, 0x00, 0x00, 0x00, 0x00, 0x00, 0x00, 0x00, 0x00, 0x00, 0x00,
            0x00, 0x00, 0x00, 0x00, 0x00, 0x00, 0x00, 0x00, 0x00, 0x00, 0x00, 0x00, 0x00, 0x00,
            0x00, 0x00, 0x00, 0x00, 0x00, 0x00, 0x00, 0x00, 0x00, 0x00, 0x00, 0x00, 0x00, 0x00,
            0x00, 0x00, 0x00, 0x00, 0x00, 0x00, 0x00, 0x00, 0x00, 0x00, 0x00, 0x00, 0x00, 0x00,
            0x00, 0x00, 0x00, 0x00, 0x00, 0x00, 0x00, 0x00, 0x00,
        ];
        assert(msg@ =~= end_program_report());
        msg
    }

    /// Programs the LEDs.
    ///
    /// `mode` is the mode to be set for the LEDs, `color` the colour.
    pub fn program_led(mode: u8, color: LedColor) -> (msg: Vec<u8>)
        ensures
            msg@ == led_report(mode, color),
            is_report(msg@),
    {
        let m_c: u8 = color.code() | mode;
        let msg = vec![
            0x03, 0xfe, 0xb0, 0x01, 0x08, 0x00, 0x00, 0x00, 0x00, 0x00, 0x01, 0x00, m_c, 0x00,
            0x00, 0x00, 0x00, 0x00, 0x00, 0x00, 0x00, 0x00, 0x00, 0x00, 0x00, 0x00, 0x00, 0x00,
            0x00, 0x00, 0x00, 0x00, 0x00, 0x00, 0x00, 0x00, 0x00, 0x00, 0x00, 0x00, 0x00, 0x00,
            0x00, 0x00, 0x00, 0x00, 0x00, 0x00, 0x00, 0x00, 0x00, 0x00, 0x00, 0x00, 0x00, 0x00,
            0x00, 0x00, 0x00, 0x00, 0x00, 0x00, 0x00, 0x00, 0x00,
        ];
        assert(msg@ =~= led_report(mode, color));
        msg
    }

    /// Message that binds `key_chord` to the key at `key_pos` on `layer`.
    ///
    /// The binding is parsed and turned into key presses. The report holds
    /// the number of chords, then the key presses in order, each as its
    /// modifier byte and its key byte, and is padded with zeros to its fixed
    /// length. The delay is not part of this report.
    ///
    /// Fails, and builds nothing, where the binding is not acceptable or
    /// stands for more than `MAX_KEY_PRESSES` key presses.
    pub fn build_key_msg(key_chord: String, layer: u8, key_pos: u8, _delay: u16) -> (r: Result<
        Vec<u8>,
        EncodingError,
    >)
        ensures
            match r {
                Ok(msg) => spec_build_key_msg(key_chord@, layer, key_pos) == Ok::<
                    _,
                    EncodingErrorView,
                >(msg@) && is_report(msg@),
                Err(e) => spec_build_key_msg(key_chord@, layer, key_pos) == Err::<Seq<u8>, _>(e@),
            },
    {
        let chords = match ChordEncoder::parse(key_chord.as_str()) {
            Ok(chords) => chords,
            Err(e) => {
                return Err(EncodingError::Binding(e));
            },
        };
        let pairs = ChordEncoder::pairs(&chords);
        if pairs.len() > MAX_KEY_PRESSES {
            return Err(EncodingError::Overflow);
        }
        proof {
            lemma_binding_pairs_len(key_seqs(chords@));
            lemma_key_report_layout(key_pos, layer, chords.len() as u8, pairs@);
        }
        let count = chords.len() as u8;
        let mut msg = vec![0x03, 0xfd, key_pos, layer, 0x01, 0x00, 0x00, 0x00, 0x00, 0x00, count];
        let ghost header = msg@;
        let mut i: usize = 0;
        while i < pairs.len()
            invariant
                i <= pairs.len(),
                msg@ == header + pair_bytes(pairs@.take(i as int)),
            decreases pairs.len() - i,
        {
            proof {
                assert(pairs@.take(i + 1).drop_last() =~= pairs@.take(i as int));
            }
            msg.push(pairs[i].0);
            msg.push(pairs[i].1);
            i += 1;
        }
        proof {
            assert(pairs@.take(i as int) =~= pairs@);
        }
        let ghost body = msg@;
        let padding = MAX_KEY_PRESSES - pairs.len() + 1;
        let mut j: usize = 0;
        while j < padding
            invariant
                j <= padding,
                msg@ == body + zeros((2 * j) as nat),
            decreases padding - j,
        {
            msg.push(0x00);
            msg.push(0x00);
            j += 1;
        }
        let ghost padded = msg@;
        // last 18 bytes are always 0
        let mut k: usize = 0;
        while k < 18
            invariant
                k <= 18,
                msg@ == padded + zeros(k as nat),
            decreases 18 - k,
        {
            msg.push(0x00);
            k += 1;
        }
        Ok(msg)
    }
}

} // verus!
