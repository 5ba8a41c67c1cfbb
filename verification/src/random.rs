use vstd::prelude::*;
use rand::rngs::OsRng;
use rand::RngCore;

verus! {

/// Calls `OsRng.try_fill_bytes` of the crate rand on a fresh buffer of `n`
/// bytes. Trusted, not proved: where the system's source answers, the buffer
/// comes back with its length unchanged. Nothing is said of the bytes.
#[verifier::external_body]
pub(crate) fn os_random(n: usize) -> (r: Option<Vec<u8>>)
    ensures
        r matches Some(v) ==> v@.len() == n,
{
    let mut bytes = vec![0u8; n];
    match OsRng.try_fill_bytes(&mut bytes) {
        Ok(()) => Some(bytes),
        Err(_) => None,
    }
}

} // verus!
