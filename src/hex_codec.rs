//! Hexadecimal text and the bytes it stands for, with an optional `0x` marker.
use vstd::prelude::*;

verus! {

/// The lowercase hexadecimal digit of a nibble (`0 <= n < 16`).
pub open spec fn nibble_char(n: int) -> char {
    if n < 10 {
        (n + 48) as char
    } else {
        (n + 87) as char
    }
}

/// The value of a hexadecimal digit in either case, or `None` for any other character.
pub open spec fn digit_value(c: char) -> Option<int> {
    let v = c as int;
    if 48 <= v <= 57 {
        Some(v - 48)
    } else if 97 <= v <= 102 {
        Some(v - 87)
    } else if 65 <= v <= 70 {
        Some(v - 55)
    } else {
        None
    }
}

/// Lowercase hexadecimal text of `b`: two digits per byte, high nibble first.
pub open spec fn hex_text(b: Seq<u8>) -> Seq<char> {
    Seq::new(
        2 * b.len(),
        |i: int|
            if i % 2 == 0 {
                nibble_char(b[i / 2] as int / 16)
            } else {
                nibble_char(b[i / 2] as int % 16)
            },
    )
}

/// `s` is an even number of hexadecimal digits (either case).
pub open spec fn is_hex_digits(s: Seq<char>) -> bool {
    &&& s.len() % 2 == 0
    &&& forall|i: int| 0 <= i < s.len() ==> (#[trigger] digit_value(s[i])) is Some
}

/// The bytes that a run of digit pairs stands for.
pub open spec fn bytes_of_digits(s: Seq<char>) -> Seq<u8> {
    Seq::new(
        s.len() / 2,
        |k: int| (digit_value(s[2 * k]).unwrap() * 16 + digit_value(s[2 * k + 1]).unwrap()) as u8,
    )
}

/// `s` starts with the marker `0x` or `0X`.
pub open spec fn has_hex_prefix(s: Seq<char>) -> bool {
    s.len() >= 2 && s[0] == '0' && (s[1] == 'x' || s[1] == 'X')
}

pub open spec fn without_prefix(s: Seq<char>) -> Seq<char> {
    if has_hex_prefix(s) {
        s.subrange(2, s.len() as int)
    } else {
        s
    }
}

pub open spec fn with_prefix(prefix: bool, s: Seq<char>) -> Seq<char> {
    if prefix {
        seq!['0', 'x'] + s
    } else {
        s
    }
}

/// What a text decodes to: its digits after an optional marker, if they are valid.
pub open spec fn decoded(s: Seq<char>) -> Option<Seq<u8>> {
    let d = without_prefix(s);
    if is_hex_digits(d) {
        Some(bytes_of_digits(d))
    } else {
        None
    }
}

/// The text that encoding `b` gives, with the marker `0x` iff `prefix`.
pub open spec fn encoded(b: Seq<u8>, prefix: bool) -> Seq<char> {
    with_prefix(prefix, hex_text(b))
}

/// The ASCII uppercase form of a character.
pub open spec fn ascii_upper(c: char) -> char {
    if 97 <= c as int <= 122 {
        (c as int - 32) as char
    } else {
        c
    }
}

/// The ASCII lowercase form of a character.
pub open spec fn ascii_lower(c: char) -> char {
    if 65 <= c as int <= 90 {
        (c as int + 32) as char
    } else {
        c
    }
}

/// The text was not an even run of hexadecimal digits after an optional marker.
#[derive(Debug, Clone, Copy, PartialEq, Eq)]
pub struct DecodeError;

#[verifier::external_type_specification]
#[verifier::external_body]
pub struct ExFromHexError(hex::FromHexError);

/// Relies on hex::decode: it fails on an odd length or a non-digit, and
/// otherwise turns each pair of digits (either case) into one byte.
#[verifier::external_body]
fn decode_digits(s: &str) -> (r: Result<Vec<u8>, hex::FromHexError>)
    ensures
        match r {
            Ok(v) => is_hex_digits(s@) && v@ == bytes_of_digits(s@),
            Err(_) => !is_hex_digits(s@),
        },
{
    hex::decode(s)
}

/// Relies on hex::encode: two lowercase digits per byte, high nibble first.
#[verifier::external_body]
fn encode_digits(b: &[u8]) -> (r: String)
    ensures
        r@ == hex_text(b@),
{
    hex::encode(b)
}

/// The text after a leading `0x` or `0X`, or the whole text where there is none.
pub fn strip_hex_prefix<'a>(text: &'a str) -> (r: &'a str)
    ensures
        r@ == without_prefix(text@),
{
    let n = text.unicode_len();
    if n >= 2 {
        let c0 = text.get_char(0);
        let c1 = text.get_char(1);
        if c0 == '0' && (c1 == 'x' || c1 == 'X') {
            return text.substring_char(2, n);
        }
    }
    text
}

/// Whether the text carries the `0x` / `0X` marker.
pub fn starts_with_hex_prefix(text: &str) -> (r: bool)
    ensures
        r == has_hex_prefix(text@),
{
    let n = text.unicode_len();
    n >= 2 && text.get_char(0) == '0' && (text.get_char(1) == 'x' || text.get_char(1) == 'X')
}

/// Decodes hexadecimal text, with or without a leading marker.
pub fn hex_decode(text: &str) -> (r: Result<Vec<u8>, DecodeError>)
    ensures
        match r {
            Ok(v) => decoded(text@) == Some(v@),
            Err(_) => decoded(text@) is None,
        },
{
    let digits = strip_hex_prefix(text);
    match decode_digits(digits) {
        Ok(v) => Ok(v),
        Err(_) => Err(DecodeError),
    }
}

/// Encodes bytes as lowercase hexadecimal text, with the marker `0x` iff `with_prefix`.
pub fn hex_encode(bytes: &[u8], with_prefix: bool) -> (r: String)
    ensures
        r@ == encoded(bytes@, with_prefix),
{
    let digits = encode_digits(bytes);
    if with_prefix {
        let mut s = String::from_str("0x");
        proof {
            reveal_strlit("0x");
        }
        s.append(digits.as_str());
        assert(s@ =~= seq!['0', 'x'] + digits@);
        s
    } else {
        digits
    }
}

/// Encoded bytes are valid digits that decode back to them, and never start
/// with the marker.
pub proof fn lemma_hex_text_digits(b: Seq<u8>)
    ensures
        is_hex_digits(hex_text(b)),
        bytes_of_digits(hex_text(b)) =~= b,
        hex_text(b).len() >= 2 ==> !has_hex_prefix(hex_text(b)),
{
    let h = hex_text(b);
    assert forall|i: int| 0 <= i < h.len() implies (#[trigger] digit_value(h[i])) is Some by {
        let x = b[i / 2] as int;
        assert(0 <= x / 16 < 16 && 0 <= x % 16 < 16);
    }
    assert forall|k: int| 0 <= k < b.len() implies #[trigger] bytes_of_digits(h)[k] == b[k] by {
        let x = b[k] as int;
        assert((2 * k) / 2 == k && (2 * k) % 2 == 0);
        assert((2 * k + 1) / 2 == k && (2 * k + 1) % 2 == 1);
        assert(0 <= x / 16 < 16 && 0 <= x % 16 < 16);
        assert(x / 16 * 16 + x % 16 == x);
    }
}

/// Decoding the encoding of any bytes gives them back, with or without the marker.
pub proof fn lemma_hex_round_trip(b: Seq<u8>, prefix: bool)
    ensures
        decoded(encoded(b, prefix)) == Some(b),
{
    lemma_hex_text_digits(b);
    let h = hex_text(b);
    if prefix {
        let e = seq!['0', 'x'] + h;
        assert(has_hex_prefix(e));
        assert(e.subrange(2, e.len() as int) =~= h);
    }
}

/// Decoding does not depend on the case of the digits (nor of the marker).
pub proof fn lemma_hex_decode_case_insensitive(s: Seq<char>)
    ensures
        decoded(s.map_values(|c: char| ascii_upper(c))) == decoded(s),
        decoded(s.map_values(|c: char| ascii_lower(c))) == decoded(s),
{
    lemma_case_map(s, s.map_values(|c: char| ascii_upper(c)));
    lemma_case_map(s, s.map_values(|c: char| ascii_lower(c)));
}

proof fn lemma_case_map(s: Seq<char>, t: Seq<char>)
    requires
        t.len() == s.len(),
        forall|i: int| 0 <= i < s.len() ==> digit_value(#[trigger] t[i]) == digit_value(s[i]),
        forall|i: int| 0 <= i < s.len() ==> (#[trigger] t[i] == '0') == (s[i] == '0'),
        forall|i: int| 0 <= i < s.len() ==> (#[trigger] t[i] == 'x' || t[i] == 'X') == (s[i] == 'x' || s[i] == 'X'),
    ensures
        decoded(t) == decoded(s),
{
    assert(has_hex_prefix(t) == has_hex_prefix(s));
    let ds = without_prefix(s);
    let dt = without_prefix(t);
    let off: int = if has_hex_prefix(s) { 2 } else { 0 };
    assert(ds.len() == dt.len());
    assert forall|i: int| 0 <= i < ds.len() implies digit_value(#[trigger] dt[i]) == digit_value(ds[i]) by {
        assert(dt[i] == t[i + off] && ds[i] == s[i + off]);
    }
    if is_hex_digits(ds) {
        assert forall|i: int| 0 <= i < dt.len() implies (#[trigger] digit_value(dt[i])) is Some by {
            assert(digit_value(dt[i]) == digit_value(ds[i]));
        }
        assert(bytes_of_digits(dt) =~= bytes_of_digits(ds)) by {
            assert forall|k: int| 0 <= k < ds.len() / 2 implies #[trigger] bytes_of_digits(dt)[k] == bytes_of_digits(ds)[k] by {
                assert(digit_value(dt[2 * k]) == digit_value(ds[2 * k]));
                assert(digit_value(dt[2 * k + 1]) == digit_value(ds[2 * k + 1]));
            }
        }
    } else if ds.len() % 2 == 0 {
        let i = choose|i: int| 0 <= i < ds.len() && digit_value(ds[i]) is None;
        assert(digit_value(dt[i]) is None);
    }
}

} // verus!
