//! The XOR mask at the heart of the transform: every byte of a buffer is
//! XORed against the key byte at the same position modulo the key length.

use vstd::prelude::*;
use vstd::slice::slice_to_vec;

verus! {

/// Bytewise XOR of `input` against `key` repeated cyclically. An empty key
/// leaves the input unchanged: that is the documented edge case, not an
/// error.
pub open spec fn xor_with_key(input: Seq<u8>, key: Seq<u8>) -> Seq<u8> {
    if key.len() == 0 {
        input
    } else {
        Seq::new(input.len(), |i: int| input[i] ^ key[i % (key.len() as int)])
    }
}

/// An empty key makes the mask a no-op, for every buffer including the
/// empty one.
pub proof fn lemma_xor_empty_key(input: Seq<u8>, key: Seq<u8>)
    requires
        key.len() == 0,
    ensures
        xor_with_key(input, key) == input,
{
}

/// The mask is an involution: masking twice with the same key restores the
/// original buffer, whatever the key.
pub proof fn lemma_xor_involution(input: Seq<u8>, key: Seq<u8>)
    ensures
        xor_with_key(xor_with_key(input, key), key) == input,
{
    if key.len() > 0 {
        let once = xor_with_key(input, key);
        let twice = xor_with_key(once, key);
        assert forall|i: int| 0 <= i < input.len() implies twice[i] == input[i] by {
            let x = input[i];
            let k = key[i % (key.len() as int)];
            assert((x ^ k) ^ k == x) by (bit_vector);
        }
        assert(twice =~= input);
    }
}

/// XOR a buffer against the repeating key bytes.
pub fn xor_bytes_rust(input: &[u8], key: &[u8]) -> (r: Vec<u8>)
    ensures
        r@ == xor_with_key(input@, key@),
{
    let key_len = key.len();
    if key_len == 0 {
        return slice_to_vec(input);
    }
    let mut out: Vec<u8> = Vec::new();
    let mut i: usize = 0;
    while i < input.len()
        invariant
            key@.len() == key_len,
            key_len > 0,
            i <= input@.len(),
            out@.len() == i,
            forall|j: int| 0 <= j < i ==> out@[j] == xor_with_key(input@, key@)[j],
        decreases input@.len() - i,
    {
        out.push(input[i] ^ key[i % key_len]);
        i += 1;
    }
    assert(out@ =~= xor_with_key(input@, key@));
    out
}

} // verus!
