//! The transform engine: salt generation, masking, transport encoding and
//! decoding, and the operation dispatcher with the fixed process-wide key.

use vstd::prelude::*;
use vstd::utf8::{decode_utf8, encode_utf8, is_ascii_chars, valid_utf8};
use vstd::utf8::{encode_utf8_valid_utf8, is_ascii_chars_encode_utf8};
use crate::base64code::{base64_decode_std, base64_encode_std, base64_std_of};
use crate::entropy::fill_random_bytes;
use crate::hexcode::{hex_encode_lower, is_lower_hex_char, lemma_hex_lower_of_props};
use crate::textenc::string_from_utf8;
use crate::xor::{lemma_xor_involution, xor_bytes_rust, xor_with_key};
use vstd::slice::slice_to_vec;

verus! {

/// Number of random salt bytes drawn per encryption; they travel as twice
/// as many hexadecimal characters.
pub const SALT_LENGTH_BYTES_RUST: usize = 16;

/// Everything the engine can fail with. No failure is a panic; each carries
/// what a caller needs for diagnostics.
#[derive(Debug, Clone, PartialEq, Eq)]
pub enum CrypterError {
    /// The platform random source could not supply salt bytes.
    RandomSourceError(String),
    /// The input was not valid transport text (standard padded base64).
    DecodeFormatError(String),
    /// The unmasked buffer was too short to contain a full salt prefix.
    TruncatedPayloadError,
    /// The unmasked payload was not valid UTF-8.
    InvalidTextEncodingError(String),
    /// The operation discriminator was recognized by no operation.
    UnsupportedOperationError(char),
}

/// A well-formed salt prefix: 32 lowercase hexadecimal characters.
pub open spec fn is_salt_hex(salt: Seq<char>) -> bool {
    &&& salt.len() == 32
    &&& forall|i: int| 0 <= i < salt.len() ==> is_lower_hex_char(#[trigger] salt[i])
}

/// The fixed process-wide key that the dispatcher hands to both operations.
pub open spec fn static_key() -> Seq<char> {
    "test_key"@
}

/// The transport string produced for a given salt, plaintext and key: the
/// salt text and the plaintext, as UTF-8 bytes, masked by the repeating key
/// bytes and rendered as standard padded base64.
pub open spec fn cipher_of(salt: Seq<char>, plaintext: Seq<char>, key: Seq<char>) -> Seq<char> {
    base64_std_of(xor_with_key(encode_utf8(salt) + encode_utf8(plaintext), encode_utf8(key)))
}

/// Draw fresh random salt bytes and render them as hexadecimal text.
pub fn generate_salt_rust() -> (r: Result<String, CrypterError>)
    ensures
        r matches Ok(s) ==> is_salt_hex(s@),
        r matches Err(e) ==> e matches CrypterError::RandomSourceError(_),
{
    match fill_random_bytes(SALT_LENGTH_BYTES_RUST) {
        Ok(bytes) => {
            let s = hex_encode_lower(bytes.as_slice());
            proof {
                lemma_hex_lower_of_props(bytes@);
            }
            Ok(s)
        },
        Err(msg) => Err(CrypterError::RandomSourceError(msg)),
    }
}

/// The deterministic half of encryption: mask the salted plaintext with the
/// key and render it for transport. Every input yields exactly the string
/// that `cipher_of` names.
pub fn encrypt_with_salt(salt_hex: &str, plaintext: &str, key: &str) -> (r: String)
    ensures
        r@ == cipher_of(salt_hex@, plaintext@, key@),
        r@.len() == 4 * ((encode_utf8(salt_hex@).len() + encode_utf8(plaintext@).len() + 2) / 3),
{
    let mut buffer: Vec<u8> = slice_to_vec(salt_hex.as_bytes());
    let mut rest: Vec<u8> = slice_to_vec(plaintext.as_bytes());
    buffer.append(&mut rest);
    assert(buffer@ == encode_utf8(salt_hex@) + encode_utf8(plaintext@));
    let masked = xor_bytes_rust(buffer.as_slice(), key.as_bytes());
    base64_encode_std(masked.as_slice())
}

/// Encrypt: fresh salt, mask, transport-encode. On success the result is
/// the cipher of some well-formed salt together with the plaintext; the one
/// failure reports the random source.
pub fn encrypt_rust(plaintext: &str, key: &str) -> (r: Result<String, CrypterError>)
    ensures
        r matches Ok(c) ==> exists|salt: Seq<char>|
            is_salt_hex(salt) && c@ == cipher_of(salt, plaintext@, key@),
        r matches Err(e) ==> e matches CrypterError::RandomSourceError(_),
{
    match generate_salt_rust() {
        Ok(salt) => {
            let c = encrypt_with_salt(salt.as_str(), plaintext, key);
            proof {
                assert(is_salt_hex(salt@) && c@ == cipher_of(salt@, plaintext@, key@));
            }
            Ok(c)
        },
        Err(e) => Err(e),
    }
}

/// Everything decryption promises of its result `r`, for transport text `c`
/// and key `k`. The transport text determines the result: each failure
/// comes exactly on the inputs named for it, and on all other inputs the
/// recovered plaintext is owed.
pub open spec fn decrypt_post(r: Result<String, CrypterError>, c: Seq<char>, k: Seq<char>) -> bool {
    let kb = encode_utf8(k);
    &&& ((r matches Err(CrypterError::DecodeFormatError(_))) <==> !(exists|b: Seq<u8>|
        #[trigger] base64_std_of(b) == c))
    &&& ((r matches Err(CrypterError::TruncatedPayloadError)) <==> (exists|b: Seq<u8>|
        #[trigger] base64_std_of(b) == c && b.len() < 32))
    &&& ((r matches Err(CrypterError::InvalidTextEncodingError(_))) <==> (exists|b: Seq<u8>|
        #[trigger] base64_std_of(b) == c && b.len() >= 32 && !valid_utf8(
            xor_with_key(b, kb).skip(32),
        )))
    &&& (forall|b: Seq<u8>|
        #[trigger] base64_std_of(b) == c && b.len() >= 32 && valid_utf8(
            xor_with_key(b, kb).skip(32),
        ) ==> (r matches Ok(s) && s@ == decode_utf8(xor_with_key(b, kb).skip(32))))
    &&& ((r matches Ok(s)) ==> (exists|b: Seq<u8>|
        #[trigger] base64_std_of(b) == c && b.len() >= 32 && valid_utf8(
            xor_with_key(b, kb).skip(32),
        )))
    &&& (forall|b1: Seq<u8>, b2: Seq<u8>|
        #[trigger] base64_std_of(b1) == c && #[trigger] base64_std_of(b2) == c ==> b1 == b2)
}

/// Decrypt: transport-decode, unmask, drop the salt prefix, read the rest
/// as text.
pub fn decrypt_rust(encrypted_data: &str, key: &str) -> (r: Result<String, CrypterError>)
    ensures
        decrypt_post(r, encrypted_data@, key@),
{
    let decoded = match base64_decode_std(encrypted_data) {
        Ok(v) => v,
        Err(msg) => {
            return Err(CrypterError::DecodeFormatError(msg));
        },
    };
    let unmasked = xor_bytes_rust(decoded.as_slice(), key.as_bytes());
    if unmasked.len() < 32 {
        return Err(CrypterError::TruncatedPayloadError);
    }
    let mut payload: Vec<u8> = Vec::new();
    let mut i: usize = 32;
    while i < unmasked.len()
        invariant
            32 <= i <= unmasked@.len(),
            payload@ == unmasked@.subrange(32, i as int),
        decreases unmasked@.len() - i,
    {
        payload.push(unmasked[i]);
        assert(payload@ =~= unmasked@.subrange(32, i + 1));
        i += 1;
    }
    assert(payload@ =~= unmasked@.skip(32));
    match string_from_utf8(payload) {
        Ok(s) => Ok(s),
        Err(msg) => Err(CrypterError::InvalidTextEncodingError(msg)),
    }
}

/// Route the operation discriminator to encryption (`'e'`) or decryption
/// (`'d'`) with the fixed process-wide key; anything else is refused,
/// carrying the offending discriminator.
pub fn process_string_rust(op_type: char, data: &str) -> (r: Result<String, CrypterError>)
    ensures
        op_type == 'e' ==> ((r matches Ok(c) ==> exists|salt: Seq<char>|
            is_salt_hex(salt) && c@ == cipher_of(salt, data@, static_key())) && (r matches Err(e)
            ==> e matches CrypterError::RandomSourceError(_))),
        op_type == 'd' ==> decrypt_post(r, data@, static_key()),
        (op_type != 'e' && op_type != 'd') ==> (r matches Err(e) && e
            == CrypterError::UnsupportedOperationError(op_type)),
{
    let key: &str = "test_key";
    if op_type == 'e' {
        encrypt_rust(data, key)
    } else if op_type == 'd' {
        decrypt_rust(data, key)
    } else {
        Err(CrypterError::UnsupportedOperationError(op_type))
    }
}

/// A well-formed salt is ASCII, so its UTF-8 bytes are one per character.
proof fn lemma_salt_hex_bytes(salt: Seq<char>)
    requires
        is_salt_hex(salt),
    ensures
        encode_utf8(salt).len() == 32,
{
    assert forall|i: int| 0 <= i < salt.len() implies '\0' <= #[trigger] salt[i] <= '\u{7f}' by {
        assert(is_lower_hex_char(salt[i]));
    }
    assert(is_ascii_chars(salt));
    is_ascii_chars_encode_utf8(salt);
}

/// Round trip: any result that decryption's contract allows for the
/// encryption of plaintext `p` under key `k` with a well-formed salt is
/// `Ok` and carries exactly `p`. Together with the contracts of
/// `encrypt_rust` and `decrypt_rust`, decrypting an encryption with the
/// same key returns the original plaintext, whatever salt was drawn.
pub proof fn lemma_round_trip(
    r: Result<String, CrypterError>,
    salt: Seq<char>,
    p: Seq<char>,
    k: Seq<char>,
)
    requires
        is_salt_hex(salt),
        decrypt_post(r, cipher_of(salt, p, k), k),
    ensures
        r matches Ok(q) && q@ == p,
{
    let kb = encode_utf8(k);
    let buffer = encode_utf8(salt) + encode_utf8(p);
    let masked = xor_with_key(buffer, kb);
    lemma_salt_hex_bytes(salt);
    lemma_xor_involution(buffer, kb);
    assert(xor_with_key(masked, kb).skip(32) =~= encode_utf8(p));
    encode_utf8_valid_utf8(p);
    assert(base64_std_of(masked) == cipher_of(salt, p, k));
    assert(r matches Ok(s) && s@ == decode_utf8(encode_utf8(p)));
    vstd::utf8::encode_utf8_decode_utf8(p);
}

/// Truncation detection: any result that decryption's contract allows for
/// the transport rendering of a masked buffer shorter than 32 bytes is the
/// truncation error.
pub proof fn lemma_truncation_detected(r: Result<String, CrypterError>, b: Seq<u8>, k: Seq<char>)
    requires
        b.len() < 32,
        decrypt_post(r, base64_std_of(b), k),
    ensures
        r matches Err(CrypterError::TruncatedPayloadError),
{
    assert(exists|bb: Seq<u8>| #[trigger] base64_std_of(bb) == base64_std_of(b) && bb.len() < 32);
}

/// Wrong-key decryption never silently hands the plaintext back: where the
/// doubly-masked payload differs from the plaintext's UTF-8 bytes, a result
/// that decryption's contract allows is an error or a different string.
/// (Where the two maskings cancel on the payload — one key a whole-length
/// repetition of the other, or an empty plaintext — decryption does recover
/// the plaintext, and that case is excluded here.)
pub proof fn lemma_wrong_key_no_silent_success(
    r: Result<String, CrypterError>,
    salt: Seq<char>,
    p: Seq<char>,
    k1: Seq<char>,
    k2: Seq<char>,
)
    requires
        is_salt_hex(salt),
        decrypt_post(r, cipher_of(salt, p, k1), k2),
        xor_with_key(
            xor_with_key(encode_utf8(salt) + encode_utf8(p), encode_utf8(k1)),
            encode_utf8(k2),
        ).skip(32) != encode_utf8(p),
    ensures
        r matches Ok(q) ==> q@ != p,
{
    let c = cipher_of(salt, p, k1);
    let buffer = encode_utf8(salt) + encode_utf8(p);
    let masked = xor_with_key(buffer, encode_utf8(k1));
    let tail = xor_with_key(masked, encode_utf8(k2)).skip(32);
    lemma_salt_hex_bytes(salt);
    if r matches Ok(q) && q@ == p {
        let b = choose|b: Seq<u8>|
            #[trigger] base64_std_of(b) == c && b.len() >= 32 && valid_utf8(
                xor_with_key(b, encode_utf8(k2)).skip(32),
            );
        assert(base64_std_of(masked) == c);
        assert(b == masked);
        assert(r matches Ok(s) && s@ == decode_utf8(tail));
        assert(decode_utf8(tail) == p);
        vstd::utf8::decode_utf8_encode_utf8(tail);
        assert(encode_utf8(p) == tail);
    }
}

} // verus!
