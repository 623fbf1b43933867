//! The AES-256-GCM core: sealing a plaintext under a key and nonce, and
//! opening a ciphertext-with-tag back up.

use vstd::prelude::*;

verus! {

use aes_gcm::aead::Aead;
use aes_gcm::{Aes256Gcm, KeyInit};
use crate::{key_ok, nonce_ok, TAG_LEN};

/// The largest plaintext AES-GCM accepts, in bytes (2^36).
pub const MAX_PLAINTEXT_LEN: u64 = 0x10_0000_0000;

/// The ciphertext-with-tag that AES-256-GCM produces for a key, nonce and
/// plaintext.  The cipher is deterministic in these three arguments; the
/// value is only named here, never restated.
pub uninterp spec fn sealed(key: Seq<u8>, nonce: Seq<u8>, plain: Seq<u8>) -> Seq<u8>;

/// `ct` is the sealing of `plain` under `(key, nonce)`: the cipher's output
/// for an in-bounds plaintext, one 16-byte tag longer than the plaintext.
pub open spec fn sealed_pair(key: Seq<u8>, nonce: Seq<u8>, plain: Seq<u8>, ct: Seq<u8>) -> bool {
    &&& plain.len() <= MAX_PLAINTEXT_LEN
    &&& ct == sealed(key, nonce, plain)
    &&& ct.len() == plain.len() + TAG_LEN
}

/// Relies on `Aes256Gcm` (`aead::Aead::encrypt`): for a 32-byte key, 12-byte
/// nonce and in-bounds plaintext, encryption always succeeds and returns the
/// ciphertext with the 16-byte tag appended, a function of the arguments
/// alone.
#[verifier::external_body]
pub fn aead_seal(key: &[u8], nonce: &[u8], plain: &[u8]) -> (r: Vec<u8>)
    requires
        key_ok(key@),
        nonce_ok(nonce@),
        plain@.len() <= MAX_PLAINTEXT_LEN,
    ensures
        sealed_pair(key@, nonce@, plain@, r@),
{
    let cipher = Aes256Gcm::new(aes_gcm::Key::<Aes256Gcm>::from_slice(key));
    cipher.encrypt(aes_gcm::Nonce::from_slice(nonce), plain).unwrap()
}

/// Relies on `Aes256Gcm` (`aead::Aead::decrypt`): tag verification accepts
/// exactly the sealings produced under `(key, nonce)`, returns the one
/// plaintext that seals to the input, and rejects everything else.  The
/// cipher's own decryption gate sits 16 bytes above its encryption gate, so
/// inputs longer than any sealing can be are excluded here and rejected by
/// the callers before the call.
#[verifier::external_body]
pub fn aead_open(key: &[u8], nonce: &[u8], ct: &[u8]) -> (r: Option<Vec<u8>>)
    requires
        key_ok(key@),
        nonce_ok(nonce@),
        ct@.len() <= MAX_PLAINTEXT_LEN + TAG_LEN,
    ensures
        (match r {
            Some(p) => sealed_pair(key@, nonce@, p@, ct@) && (forall|q: Seq<u8>|
                q.len() <= MAX_PLAINTEXT_LEN && ct@ == sealed(key@, nonce@, q) ==> p@ == q),
            None => forall|p: Seq<u8>|
                p.len() <= MAX_PLAINTEXT_LEN ==> ct@ != sealed(key@, nonce@, p),
        }),
{
    let cipher = Aes256Gcm::new(aes_gcm::Key::<Aes256Gcm>::from_slice(key));
    match cipher.decrypt(aes_gcm::Nonce::from_slice(nonce), ct) {
        Ok(p) => Some(p),
        Err(_) => None,
    }
}

} // verus!
