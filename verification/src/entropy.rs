//! The platform random source, consulted once per encryption for the salt.

use vstd::prelude::*;
use rand::RngCore;

verus! {

/// Relies on rand::thread_rng and rand::RngCore::try_fill_bytes: on success
/// a buffer of the requested length has been filled from the platform
/// random generator; on failure the error is rendered as text. Nothing is
/// promised of the bytes themselves.
#[verifier::external_body]
pub(crate) fn fill_random_bytes(len: usize) -> (r: Result<Vec<u8>, String>)
    ensures
        r matches Ok(v) ==> v@.len() == len,
{
    let mut buf = vec![0u8; len];
    match rand::thread_rng().try_fill_bytes(&mut buf) {
        Ok(()) => Ok(buf),
        Err(e) => Err(format!("{}", e)),
    }
}

} // verus!
