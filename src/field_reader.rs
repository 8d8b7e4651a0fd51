//! The sequence number of a transaction, read at its fixed offset without
//! parsing the rest of the layout: `[sender: 32 bytes][sequence number: 8 bytes, little-endian]...`.
use vstd::prelude::*;
use crate::hex_codec::{decoded, hex_decode};

verus! {

/// Where the sequence number starts: right after the 32-byte sender address.
pub const SEQUENCE_OFFSET: usize = 32;

/// The least length that holds the sequence number.
pub const SEQUENCE_END: usize = 40;

/// The unsigned value of a byte sequence read little-endian.
pub open spec fn le_value(s: Seq<u8>) -> nat
    decreases s.len(),
{
    if s.len() == 0 {
        0
    } else {
        s[0] as nat + 256 * le_value(s.drop_first())
    }
}

/// The sequence number that a buffer holds, or `None` if it is too short to hold one.
pub open spec fn sequence_field(b: Seq<u8>) -> Option<int> {
    if b.len() >= SEQUENCE_END {
        Some(le_value(b.subrange(SEQUENCE_OFFSET as int, SEQUENCE_END as int)) as int)
    } else {
        None
    }
}

/// The sequence number carried by hexadecimal text, or `None` if the text is
/// not valid hexadecimal or its bytes are too short.
pub open spec fn sequence_field_of_text(t: Seq<char>) -> Option<int> {
    match decoded(t) {
        Some(b) => sequence_field(b),
        None => None,
    }
}

/// Reads the little-endian `u64` at offset 32; a buffer shorter than 40 bytes gives `None`.
pub fn read_sequence_number(bytes: &[u8]) -> (r: Option<u64>)
    ensures
        r is Some <==> bytes@.len() >= SEQUENCE_END,
        r is Some ==> r.unwrap() as int == le_value(bytes@.subrange(32, 40)),
        r matches Some(x) ==> sequence_field(bytes@) == Some(x as int),
        r is None ==> sequence_field(bytes@) is None,
{
    if bytes.len() < SEQUENCE_END {
        return None;
    }
    let v: u64 = bytes[32] as u64 + (bytes[33] as u64) * 0x100 + (bytes[34] as u64) * 0x1_0000
        + (bytes[35] as u64) * 0x100_0000 + (bytes[36] as u64) * 0x1_0000_0000 + (bytes[37] as u64)
        * 0x100_0000_0000 + (bytes[38] as u64) * 0x1_0000_0000_0000 + (bytes[39] as u64)
        * 0x100_0000_0000_0000;
    proof {
        let s = bytes@.subrange(32, 40);
        reveal_with_fuel(le_value, 9);
        assert(s.drop_first().drop_first().drop_first().drop_first().drop_first().drop_first().drop_first().drop_first().len() == 0);
        assert(s[0] == bytes@[32] && s[1] == bytes@[33] && s[2] == bytes@[34] && s[3] == bytes@[35]);
        assert(s[4] == bytes@[36] && s[5] == bytes@[37] && s[6] == bytes@[38] && s[7] == bytes@[39]);
    }
    Some(v)
}

/// Decodes hexadecimal text and reads the sequence number from its bytes; text
/// that does not decode gives `None`, as a buffer that is too short does.
pub fn parse_sequence_number(hex_text: &str) -> (r: Option<u64>)
    ensures
        match r {
            Some(x) => sequence_field_of_text(hex_text@) == Some(x as int),
            None => sequence_field_of_text(hex_text@) is None,
        },
{
    match hex_decode(hex_text) {
        Ok(bytes) => read_sequence_number(bytes.as_slice()),
        Err(_) => None,
    }
}

} // verus!
