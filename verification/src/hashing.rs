//! The SHA-256 digest used for salted content fingerprints.

use vstd::prelude::*;

verus! {

use sha2::Digest;

/// The 32-byte SHA-256 digest of a byte string.  The digest is a function of
/// the bytes alone; its value is not restated here, only named.
pub uninterp spec fn sha256_of(bytes: Seq<u8>) -> Seq<u8>;

/// Relies on `sha2::Sha256` (the `Digest` trait): feeding the hasher two
/// slices in turn digests their concatenation, and the digest is 32 bytes.
#[verifier::external_body]
pub fn sha256_pair(a: &[u8], b: &[u8]) -> (r: Vec<u8>)
    ensures
        r@ == sha256_of(a@ + b@),
        r@.len() == 32,
{
    let mut hasher = sha2::Sha256::new();
    hasher.update(a);
    hasher.update(b);
    hasher.finalize().to_vec()
}

} // verus!
