//! Transport encoding: standard padded base64, through the base64 crate's
//! STANDARD engine.

use vstd::prelude::*;
use base64::Engine;

verus! {

/// What the base64 STANDARD engine's encode returns for a byte sequence:
/// its rendering in the standard alphabet with canonical padding. The
/// rendering is a function of the bytes alone.
pub uninterp spec fn base64_std_of(bytes: Seq<u8>) -> Seq<char>;

/// Relies on base64's STANDARD engine encode (standard alphabet, padded):
/// the output takes four characters for every started group of three input
/// bytes.
#[verifier::external_body]
pub(crate) fn base64_encode_std(bytes: &[u8]) -> (r: String)
    ensures
        r@ == base64_std_of(bytes@),
        r@.len() == 4 * ((bytes@.len() + 2) / 3),
{
    base64::engine::general_purpose::STANDARD.encode(bytes)
}

/// Relies on base64's STANDARD engine decode. Its configuration demands
/// canonical padding and rejects nonzero trailing bits, so it accepts
/// exactly the strings that the STANDARD encode produces and inverts the
/// encode; on failure the diagnostic is rendered as text.
#[verifier::external_body]
pub(crate) fn base64_decode_std(text: &str) -> (r: Result<Vec<u8>, String>)
    ensures
        r matches Ok(v) ==> base64_std_of(v@) == text@,
        r matches Ok(v) ==> forall|b: Seq<u8>| #[trigger] base64_std_of(b) == text@ ==> b == v@,
        (exists|b: Seq<u8>| #[trigger] base64_std_of(b) == text@) ==> r is Ok,
{
    match base64::engine::general_purpose::STANDARD.decode(text) {
        Ok(v) => Ok(v),
        Err(e) => Err(format!("{}", e)),
    }
}

} // verus!
