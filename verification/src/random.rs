//! Cryptographically secure random bytes for nonces and keys.

use vstd::prelude::*;

verus! {

use rand::RngCore;

/// Relies on `rand::thread_rng` (`RngCore::fill_bytes`): a cryptographically
/// secure, thread-safe generator.  Nothing is stated of the values drawn,
/// only that the requested number of bytes comes back.
#[verifier::external_body]
pub fn random_bytes(n: usize) -> (r: Vec<u8>)
    ensures
        r@.len() == n,
{
    let mut buf = vec![0u8; n];
    rand::thread_rng().fill_bytes(&mut buf);
    buf
}

} // verus!
