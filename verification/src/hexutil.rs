//! Hex encoding and decoding of byte strings, and parsing of 32-byte image
//! ids from hex text with an optional `0x`/`0X` prefix.

use crate::errors::ReceiptError;
use vstd::prelude::*;
use vstd::string::StrSliceExecFns;

verus! {

/// A hex digit in either case.
pub open spec fn is_hex_digit(c: char) -> bool {
    ('0' <= c && c <= '9') || ('a' <= c && c <= 'f') || ('A' <= c && c <= 'F')
}

/// The value of a hex digit, upper and lower case alike.
pub open spec fn hex_val(c: char) -> u8
    recommends
        is_hex_digit(c),
{
    if '0' <= c && c <= '9' {
        ((c as int) - 48) as u8
    } else if 'a' <= c && c <= 'f' {
        ((c as int) - 87) as u8
    } else {
        ((c as int) - 55) as u8
    }
}

/// The lowercase hex digit for a value below 16.
pub open spec fn hex_char_of(n: u8) -> char
    recommends
        n < 16,
{
    if n < 10 {
        (n + 48) as char
    } else {
        (n + 87) as char
    }
}

/// The uppercase counterpart of a hex digit; other characters are unchanged.
pub open spec fn upper_hex_char(c: char) -> char {
    if 'a' <= c && c <= 'f' {
        ((c as int) - 32) as char
    } else {
        c
    }
}

/// An even-length string of hex digits: exactly the strings `hex_decode`
/// accepts.
pub open spec fn is_hex_string(s: Seq<char>) -> bool {
    s.len() % 2 == 0 && (forall|i: int| 0 <= i < s.len() ==> is_hex_digit(#[trigger] s[i]))
}

/// The lowercase hex rendering of a byte sequence: two digits per byte, in
/// order.
pub open spec fn hex_str_of(b: Seq<u8>) -> Seq<char> {
    Seq::new(
        2 * b.len(),
        |i: int|
            if i % 2 == 0 {
                hex_char_of((b[i / 2] / 16) as u8)
            } else {
                hex_char_of((b[i / 2] % 16) as u8)
            },
    )
}

/// Relies on `hex::encode`: every byte becomes two lowercase hex digits, in
/// order.
#[verifier::external_body]
pub(crate) fn hex_encode(bytes: &[u8]) -> (s: String)
    ensures
        s@ == hex_str_of(bytes@),
{
    hex::encode(bytes)
}

/// Relies on `hex::decode`: it succeeds exactly on even-length strings of hex
/// digits (either case), pairing digits into bytes in order.  A character
/// outside that set—ASCII or not—encodes to at least one byte that is not a
/// hex digit, so the character-level statement matches the byte-level
/// behaviour.
#[verifier::external_body]
pub(crate) fn hex_decode(s: &str) -> (r: Option<Vec<u8>>)
    ensures
        (r is Some) <==> is_hex_string(s@),
        r matches Some(v) ==> v@.len() == s@.len() / 2 && (forall|i: int|
            0 <= i < v@.len() ==> #[trigger] v@[i] == 16 * hex_val(s@[2 * i]) + hex_val(
                s@[2 * i + 1],
            )),
{
    match hex::decode(s) {
        Ok(v) => Some(v),
        Err(_) => None,
    }
}

/// Drop a single leading `0x` or `0X`, if present.
pub open spec fn strip_hex_prefix(s: Seq<char>) -> Seq<char> {
    if s.len() >= 2 && s[0] == '0' && (s[1] == 'x' || s[1] == 'X') {
        s.skip(2)
    } else {
        s
    }
}

/// The 32 bytes denoted by a 64-digit hex string with an optional prefix, or
/// nothing if the text is not of that shape.
pub open spec fn spec_parse_image_id_hex(s: Seq<char>) -> Option<Seq<u8>> {
    let t = strip_hex_prefix(s);
    if t.len() == 64 && (forall|i: int| 0 <= i < t.len() ==> is_hex_digit(#[trigger] t[i])) {
        Some(Seq::new(32, |i: int| (16 * hex_val(t[2 * i]) + hex_val(t[2 * i + 1])) as u8))
    } else {
        None
    }
}

/// Parse a trusted 32-byte image id from hex text.
///
/// Accepts an optional `0x`/`0X` prefix and requires exactly 64 hex digits
/// after stripping it.
pub fn parse_image_id_hex(s: &str) -> (r: Result<Vec<u8>, ReceiptError>)
    ensures
        spec_parse_image_id_hex(s@) matches Some(id) ==> r matches Ok(v) && v@ == id,
        (spec_parse_image_id_hex(s@) is None) <==> (r is Err),
        r matches Err(e) ==> (e == ReceiptError::InvalidHex <==> !is_hex_string(
            strip_hex_prefix(s@),
        )),
        r matches Err(e) ==> (e == ReceiptError::InvalidLength <==> is_hex_string(
            strip_hex_prefix(s@),
        ) && strip_hex_prefix(s@).len() != 64),
{
    let n: usize = s.unicode_len();
    let stripped: &str = if n >= 2 && s.get_char(0) == '0' && (s.get_char(1) == 'x' || s.get_char(
        1,
    ) == 'X') {
        s.substring_char(2, n)
    } else {
        s
    };
    assert(stripped@ == strip_hex_prefix(s@));
    match hex_decode(stripped) {
        None => Err(ReceiptError::InvalidHex),
        Some(v) => {
            if v.len() != 32 {
                Err(ReceiptError::InvalidLength)
            } else {
                proof {
                    let t = strip_hex_prefix(s@);
                    assert(t.len() == 64);
                    let id = spec_parse_image_id_hex(s@)->Some_0;
                    assert(v@ =~= id);
                }
                Ok(v)
            }
        },
    }
}

/// Image-id parsing is insensitive to a `0x`/`0X` prefix and to the case of
/// the hex digits: prefixing a 64-digit hex string, or raising it to upper
/// case, denotes the same 32 bytes.
pub proof fn lemma_image_id_hex_robustness(h: Seq<char>)
    requires
        h.len() == 64,
        forall|i: int| 0 <= i < h.len() ==> is_hex_digit(#[trigger] h[i]),
    ensures
        spec_parse_image_id_hex(h) is Some,
        spec_parse_image_id_hex(seq!['0', 'x'] + h) == spec_parse_image_id_hex(h),
        spec_parse_image_id_hex(seq!['0', 'X'] + h) == spec_parse_image_id_hex(h),
        spec_parse_image_id_hex(h.map_values(|c: char| upper_hex_char(c)))
            == spec_parse_image_id_hex(h),
{
    let px = seq!['0', 'x'] + h;
    assert(px[0] == '0' && px[1] == 'x');
    assert(strip_hex_prefix(px) =~= h);
    let pX = seq!['0', 'X'] + h;
    assert(pX[0] == '0' && pX[1] == 'X');
    assert(strip_hex_prefix(pX) =~= h);
    let u = h.map_values(|c: char| upper_hex_char(c));
    assert(u.len() == 64);
    assert(is_hex_digit(h[1]));
    assert(u[1] == upper_hex_char(h[1]));
    assert(u[1] != 'x' && u[1] != 'X');
    assert(strip_hex_prefix(u) == u);
    assert forall|i: int| 0 <= i < u.len() implies is_hex_digit(#[trigger] u[i]) by {
        assert(u[i] == upper_hex_char(h[i]));
    }
    let a = spec_parse_image_id_hex(u)->Some_0;
    let b = spec_parse_image_id_hex(h)->Some_0;
    assert forall|i: int| 0 <= i < 32 implies a[i] == b[i] by {
        assert(u[2 * i] == upper_hex_char(h[2 * i]));
        assert(u[2 * i + 1] == upper_hex_char(h[2 * i + 1]));
        assert(hex_val(upper_hex_char(h[2 * i])) == hex_val(h[2 * i]));
        assert(hex_val(upper_hex_char(h[2 * i + 1])) == hex_val(h[2 * i + 1]));
    }
    assert(a =~= b);
}

} // verus!
