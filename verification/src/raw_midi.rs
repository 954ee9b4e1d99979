//! Raw MIDI messages as the preset layer carries them: either a list of
//! bytes, or a hex string that is decoded (ignoring spaces) into bytes.

use vstd::prelude::*;

verus! {

/// Whether a byte is an ASCII hex digit.
pub open spec fn is_hex_digit(c: u8) -> bool {
    ||| 0x30 <= c <= 0x39
    ||| 0x41 <= c <= 0x46
    ||| 0x61 <= c <= 0x66
}

/// The value of an ASCII hex digit.
pub open spec fn hex_digit_val(c: u8) -> u8 {
    if 0x30 <= c <= 0x39 {
        (c - 0x30) as u8
    } else if 0x41 <= c <= 0x46 {
        (c - 0x41 + 10) as u8
    } else {
        (c - 0x61 + 10) as u8
    }
}

/// Whether a byte sequence is a well-formed hex string: even length, hex
/// digits throughout.
pub open spec fn is_hex_string(s: Seq<u8>) -> bool {
    &&& s.len() % 2 == 0
    &&& forall|i: int| 0 <= i < s.len() ==> is_hex_digit(#[trigger] s[i])
}

/// The byte that the hex digit pair at position `i` decodes to.
pub open spec fn hex_byte_at(s: Seq<u8>, i: int) -> u8 {
    (hex_digit_val(s[2 * i]) * 16 + hex_digit_val(s[2 * i + 1])) as u8
}

/// Relies on hex::decode: a string of an even number of hex digits
/// decodes to one byte per digit pair; an odd length or any other
/// character is rejected.
#[verifier::external_body]
fn decode_hex(text: &Vec<u8>) -> (r: Option<Vec<u8>>)
    ensures
        if is_hex_string(text@) {
            &&& r matches Some(v)
            &&& v@.len() == text@.len() / 2
            &&& forall|i: int| 0 <= i < v@.len() ==> #[trigger] v@[i] == hex_byte_at(text@, i)
        } else {
            r is None
        },
{
    hex::decode(text).ok()
}

/// A raw MIDI message, as entered by hand: a hex string or a byte array.
#[derive(Clone, Debug, PartialEq)]
pub enum RawMidiMessage {
    HexString(Vec<u8>),
    ByteArray(Vec<u8>),
}

/// The byte sequence the text decodes to once spaces are removed, if what
/// remains is a well-formed hex string.
pub open spec fn spec_hex_message_bytes(text: Seq<u8>) -> Option<Seq<u8>> {
    let stripped = text.filter(|c: u8| c != 0x20);
    if is_hex_string(stripped) {
        Some(Seq::new(stripped.len() / 2, |i: int| hex_byte_at(stripped, i)))
    } else {
        None
    }
}

impl RawMidiMessage {
    /// The message's bytes.
    pub fn bytes(&self) -> (r: &Vec<u8>)
        ensures
            r@ == match self {
                RawMidiMessage::HexString(b) => b@,
                RawMidiMessage::ByteArray(b) => b@,
            },
    {
        match self {
            RawMidiMessage::HexString(b) => b,
            RawMidiMessage::ByteArray(b) => b,
        }
    }

    /// Parses a hex string (spaces allowed between digits) into a
    /// message; rejects anything that is not a hex string after the
    /// spaces are removed.
    pub fn from_hex_string(text: &Vec<u8>) -> (r: Option<RawMidiMessage>)
        ensures
            match spec_hex_message_bytes(text@) {
                Some(bytes) => r matches Some(m) && m matches RawMidiMessage::HexString(b) && b@
                    == bytes,
                None => r is None,
            },
    {
        let mut stripped: Vec<u8> = Vec::new();
        let mut i: usize = 0;
        while i < text.len()
            invariant
                i <= text@.len(),
                stripped@ == text@.take(i as int).filter(|c: u8| c != 0x20),
            decreases text@.len() - i,
        {
            let c = text[i];
            if c != 0x20 {
                stripped.push(c);
            }
            proof {
                assert(text@.take(i as int + 1).drop_last() =~= text@.take(i as int));
                reveal_with_fuel(Seq::filter, 2);
                assert(text@.take(i as int + 1).last() == text@[i as int]);
            }
            i += 1;
        }
        proof {
            assert(text@.take(text@.len() as int) =~= text@);
        }
        match decode_hex(&stripped) {
            Some(bytes) => {
                proof {
                    let expected = spec_hex_message_bytes(text@)->Some_0;
                    assert(bytes@ =~= expected);
                }
                Some(RawMidiMessage::HexString(bytes))
            },
            None => None,
        }
    }
}

/// The per-mapping extension data: raw MIDI messages to send when the
/// mapping is activated and when it is deactivated.
#[derive(Clone, Debug, PartialEq)]
pub struct MappingExtensionModel {
    on_activate: Vec<RawMidiMessage>,
    on_deactivate: Vec<RawMidiMessage>,
}

impl MappingExtensionModel {
    pub fn new(on_activate: Vec<RawMidiMessage>, on_deactivate: Vec<RawMidiMessage>) -> (r:
        MappingExtensionModel)
        ensures
            r.on_activate_spec() == on_activate@,
            r.on_deactivate_spec() == on_deactivate@,
    {
        MappingExtensionModel { on_activate, on_deactivate }
    }

    pub closed spec fn on_activate_spec(&self) -> Seq<RawMidiMessage> {
        self.on_activate@
    }

    pub closed spec fn on_deactivate_spec(&self) -> Seq<RawMidiMessage> {
        self.on_deactivate@
    }

    pub fn on_activate(&self) -> (r: &Vec<RawMidiMessage>)
        ensures
            r@ == self.on_activate_spec(),
    {
        &self.on_activate
    }

    pub fn on_deactivate(&self) -> (r: &Vec<RawMidiMessage>)
        ensures
            r@ == self.on_deactivate_spec(),
    {
        &self.on_deactivate
    }
}

} // verus!
