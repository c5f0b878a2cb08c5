//! Lowercase hexadecimal rendering of bytes, used for the salt prefix.

use vstd::prelude::*;

verus! {

/// The lowercase hexadecimal digit for a value below 16.
pub open spec fn hex_digit_char(n: u8) -> char
    recommends
        n < 16,
{
    if n < 10 {
        (((n + 48) as u8) as char)
    } else {
        (((n + 87) as u8) as char)
    }
}

/// `bytes` rendered as lowercase hexadecimal text: two digits per byte,
/// high nibble first.
pub open spec fn hex_lower_of(bytes: Seq<u8>) -> Seq<char> {
    Seq::new(
        2 * bytes.len(),
        |i: int|
            if i % 2 == 0 {
                hex_digit_char(bytes[i / 2] >> 4)
            } else {
                hex_digit_char(bytes[i / 2] & 0x0f)
            },
    )
}

/// True of a character that a lowercase hexadecimal rendering can contain.
pub open spec fn is_lower_hex_char(c: char) -> bool {
    ('0' <= c && c <= '9') || ('a' <= c && c <= 'f')
}

/// A hexadecimal rendering is twice as long as its bytes, holds only
/// lowercase hexadecimal characters, and is ASCII throughout.
pub proof fn lemma_hex_lower_of_props(bytes: Seq<u8>)
    ensures
        hex_lower_of(bytes).len() == 2 * bytes.len(),
        forall|i: int|
            0 <= i < 2 * bytes.len() ==> is_lower_hex_char(#[trigger] hex_lower_of(bytes)[i]),
        vstd::utf8::is_ascii_chars(hex_lower_of(bytes)),
{
    let text = hex_lower_of(bytes);
    assert forall|i: int| 0 <= i < 2 * bytes.len() implies is_lower_hex_char(#[trigger] text[i])
        && '\0' <= text[i] <= '\u{7f}' by {
        let b = bytes[i / 2];
        assert(b >> 4 < 16 && b & 0x0f < 16) by (bit_vector);
    }
}

/// Relies on hex::encode: bytes become their lowercase hexadecimal text,
/// two digits per byte, high nibble first, a function of the bytes alone.
#[verifier::external_body]
pub(crate) fn hex_encode_lower(bytes: &[u8]) -> (r: String)
    ensures
        r@ == hex_lower_of(bytes@),
{
    hex::encode(bytes)
}

} // verus!
