//! The shared sealed-envelope core.
//!
//! All public operations are thin framing layers over the four functions
//! here: sealing with a fresh or a caller-supplied nonce, and the matching
//! opening of a self-describing envelope or of a bare ciphertext.

use vstd::prelude::*;

verus! {

use crate::aead::{aead_open, aead_seal, sealed, sealed_pair, MAX_PLAINTEXT_LEN};
use crate::errors::CryptoError;
use crate::random::random_bytes;
use crate::{key_ok, nonce_ok, KEY_LEN, NONCE_LEN, TAG_LEN};
use vstd::slice::slice_subrange;

/// `env` is a self-describing envelope for `plain` under `key`: a valid
/// nonce followed by the sealing of `plain` under that nonce.
///
/// Sealing guarantees this of every envelope it returns, and opening
/// promises to return `plain` for every envelope of which it holds: the
/// two sides of the round trip meet in this predicate.
pub open spec fn envelope_for(key: Seq<u8>, env: Seq<u8>, plain: Seq<u8>) -> bool {
    exists|n: Seq<u8>, ct: Seq<u8>|
        nonce_ok(n) && sealed_pair(key, n, plain, ct) && env == n + ct
}

/// A well-formed envelope is never short: the nonce and the tag alone take
/// 28 bytes, so the length gate on opening can reject nothing sealable.
pub proof fn lemma_envelope_min_len(key: Seq<u8>, env: Seq<u8>, plain: Seq<u8>)
    requires
        envelope_for(key, env, plain),
    ensures
        env.len() >= NONCE_LEN + TAG_LEN,
{
    let (n, ct) = choose|n: Seq<u8>, ct: Seq<u8>|
        nonce_ok(n) && sealed_pair(key, n, plain, ct) && env == n + ct;
    assert(env.len() == n.len() + ct.len());
}

/// Seal `plain` under `key` with a fresh random nonce and return the
/// self-describing envelope `nonce || ciphertext_with_tag`.
pub fn seal_envelope(key: &[u8], plain: &[u8]) -> (r: Result<Vec<u8>, CryptoError>)
    ensures
        r == Err::<Vec<u8>, CryptoError>(CryptoError::KeyLength) <==> !key_ok(key@),
        r == Err::<Vec<u8>, CryptoError>(CryptoError::MessageTooLong) <==> key_ok(key@)
            && plain@.len() > MAX_PLAINTEXT_LEN,
        key_ok(key@) && plain@.len() <= MAX_PLAINTEXT_LEN ==> r is Ok,
        (match r {
            Ok(env) => envelope_for(key@, env@, plain@),
            Err(e) => e is KeyLength || e is MessageTooLong,
        }),
{
    if key.len() != KEY_LEN {
        return Err(CryptoError::KeyLength);
    }
    if plain.len() as u64 > MAX_PLAINTEXT_LEN {
        return Err(CryptoError::MessageTooLong);
    }
    let nonce = random_bytes(NONCE_LEN);
    let mut ct = aead_seal(key, nonce.as_slice(), plain);
    let ghost n = nonce@;
    let ghost c = ct@;
    let mut env = nonce;
    env.append(&mut ct);
    proof {
        assert(nonce_ok(n) && sealed_pair(key@, n, plain@, c) && env@ == n + c);
    }
    Ok(env)
}

/// Seal `plain` under `key` and the caller's `nonce` and return the bare
/// `ciphertext_with_tag`; the caller keeps the nonce.  The caller bears the
/// obligation never to reuse one `(key, nonce)` pair for two plaintexts.
pub fn seal_raw(key: &[u8], nonce: &[u8], plain: &[u8]) -> (r: Result<Vec<u8>, CryptoError>)
    ensures
        r == Err::<Vec<u8>, CryptoError>(CryptoError::KeyLength) <==> !key_ok(key@),
        r == Err::<Vec<u8>, CryptoError>(CryptoError::NonceLength) <==> key_ok(key@)
            && !nonce_ok(nonce@),
        r == Err::<Vec<u8>, CryptoError>(CryptoError::MessageTooLong) <==> key_ok(key@)
            && nonce_ok(nonce@) && plain@.len() > MAX_PLAINTEXT_LEN,
        key_ok(key@) && nonce_ok(nonce@) && plain@.len() <= MAX_PLAINTEXT_LEN ==> r is Ok,
        (match r {
            Ok(ct) => sealed_pair(key@, nonce@, plain@, ct@),
            Err(e) => e is KeyLength || e is NonceLength || e is MessageTooLong,
        }),
{
    if key.len() != KEY_LEN {
        return Err(CryptoError::KeyLength);
    }
    if nonce.len() != NONCE_LEN {
        return Err(CryptoError::NonceLength);
    }
    if plain.len() as u64 > MAX_PLAINTEXT_LEN {
        return Err(CryptoError::MessageTooLong);
    }
    Ok(aead_seal(key, nonce, plain))
}

/// Open a self-describing envelope: split off the 12-byte nonce, verify the
/// tag, and return the plaintext.  Succeeds exactly on the envelopes that
/// sealing can produce under `key`, and then returns the one plaintext they
/// were sealed over.
pub fn open_envelope(key: &[u8], data: &[u8]) -> (r: Result<Vec<u8>, CryptoError>)
    ensures
        r == Err::<Vec<u8>, CryptoError>(CryptoError::KeyLength) <==> !key_ok(key@),
        r == Err::<Vec<u8>, CryptoError>(CryptoError::PayloadTooShort) <==> key_ok(key@)
            && data@.len() <= NONCE_LEN,
        r == Err::<Vec<u8>, CryptoError>(CryptoError::AuthenticationFailure) <==> key_ok(key@)
            && data@.len() > NONCE_LEN && !(exists|p: Seq<u8>| envelope_for(key@, data@, p)),
        (match r {
            Ok(p) => envelope_for(key@, data@, p@) && (forall|q: Seq<u8>|
                envelope_for(key@, data@, q) ==> p@ == q),
            Err(e) => e is KeyLength || e is PayloadTooShort || e is AuthenticationFailure,
        }),
{
    if key.len() != KEY_LEN {
        return Err(CryptoError::KeyLength);
    }
    if data.len() <= NONCE_LEN {
        return Err(CryptoError::PayloadTooShort);
    }
    if data.len() as u64 > MAX_PLAINTEXT_LEN + ((NONCE_LEN + TAG_LEN) as u64) {
        proof {
            assert forall|q: Seq<u8>| !envelope_for(key@, data@, q) by {
                if envelope_for(key@, data@, q) {
                    let (n2, c2) = choose|n2: Seq<u8>, c2: Seq<u8>|
                        nonce_ok(n2) && sealed_pair(key@, n2, q, c2) && data@ == n2 + c2;
                    assert(data@.len() == n2.len() + c2.len());
                }
            }
        }
        return Err(CryptoError::AuthenticationFailure);
    }
    let nonce = slice_subrange(data, 0, NONCE_LEN);
    let ct = slice_subrange(data, NONCE_LEN, data.len());
    match aead_open(key, nonce, ct) {
        Some(p) => {
            proof {
                assert(data@ =~= nonce@ + ct@);
                assert(nonce_ok(nonce@) && sealed_pair(key@, nonce@, p@, ct@)
                    && data@ == nonce@ + ct@);
                assert(envelope_for(key@, data@, p@));
                assert forall|q: Seq<u8>| envelope_for(key@, data@, q) implies p@ == q by {
                    let (n2, c2) = choose|n2: Seq<u8>, c2: Seq<u8>|
                        nonce_ok(n2) && sealed_pair(key@, n2, q, c2) && data@ == n2 + c2;
                    assert(n2 =~= nonce@);
                    assert(c2 =~= ct@);
                }
            }
            Ok(p)
        },
        None => {
            proof {
                assert forall|q: Seq<u8>| !envelope_for(key@, data@, q) by {
                    if envelope_for(key@, data@, q) {
                        let (n2, c2) = choose|n2: Seq<u8>, c2: Seq<u8>|
                            nonce_ok(n2) && sealed_pair(key@, n2, q, c2) && data@ == n2 + c2;
                        assert(n2 =~= nonce@);
                        assert(c2 =~= ct@);
                        assert(ct@ == sealed(key@, nonce@, q));
                        assert(false);
                    }
                }
            }
            Err(CryptoError::AuthenticationFailure)
        },
    }
}

/// Open a bare `ciphertext_with_tag` under `key` and the caller's `nonce`.
/// Succeeds exactly when the input is the sealing of some plaintext under
/// that pair, and then returns that plaintext.
pub fn open_raw(key: &[u8], nonce: &[u8], ct: &[u8]) -> (r: Result<Vec<u8>, CryptoError>)
    ensures
        r == Err::<Vec<u8>, CryptoError>(CryptoError::KeyLength) <==> !key_ok(key@),
        r == Err::<Vec<u8>, CryptoError>(CryptoError::NonceLength) <==> key_ok(key@)
            && !nonce_ok(nonce@),
        r == Err::<Vec<u8>, CryptoError>(CryptoError::AuthenticationFailure) <==> key_ok(key@)
            && nonce_ok(nonce@) && !(exists|p: Seq<u8>| sealed_pair(key@, nonce@, p, ct@)),
        (match r {
            Ok(p) => sealed_pair(key@, nonce@, p@, ct@) && (forall|q: Seq<u8>|
                sealed_pair(key@, nonce@, q, ct@) ==> p@ == q),
            Err(e) => e is KeyLength || e is NonceLength || e is AuthenticationFailure,
        }),
{
    if key.len() != KEY_LEN {
        return Err(CryptoError::KeyLength);
    }
    if nonce.len() != NONCE_LEN {
        return Err(CryptoError::NonceLength);
    }
    if ct.len() as u64 > MAX_PLAINTEXT_LEN + (TAG_LEN as u64) {
        proof {
            assert(forall|q: Seq<u8>| !sealed_pair(key@, nonce@, q, ct@));
        }
        return Err(CryptoError::AuthenticationFailure);
    }
    match aead_open(key, nonce, ct) {
        Some(p) => Ok(p),
        None => Err(CryptoError::AuthenticationFailure),
    }
}

} // verus!
