//! The public operations: text and file encryption and decryption, the
//! salted fingerprint, and key generation.
//!
//! Text operations take the raw byte representation of their string
//! arguments (no implicit decoding): the key must be 32 bytes, an explicit
//! nonce 12 bytes.  Envelopes and ciphertexts travel as standard padded
//! base64 on the text API and as raw bytes on the file API.

use vstd::prelude::*;

verus! {

use crate::aead::{sealed_pair, MAX_PLAINTEXT_LEN};
use crate::codec::{b64_decode, b64_encode, b64_of, hex_of, hex_lower, lemma_hex_len};
use crate::envelope::{
    envelope_for, lemma_envelope_min_len, open_envelope, open_raw, seal_envelope, seal_raw,
};
use crate::errors::CryptoError;
use crate::hashing::{sha256_of, sha256_pair};
use crate::random::random_bytes;
use crate::text::{bytes_to_text, utf8_lossy_of};
use crate::{key_ok, nonce_ok, KEY_LEN, NONCE_LEN};
use vstd::utf8::encode_utf8;

broadcast use vstd::utf8::encode_utf8_valid_utf8, vstd::utf8::encode_utf8_decode_utf8;

/// `env` is a base64 text envelope for the text `orig`, under the key whose
/// raw bytes are the UTF-8 encoding of `key`.
///
/// `encrypt` guarantees this of every envelope it returns, and `decrypt`
/// promises to return `orig` for every envelope of which it holds: the two
/// sides of the text round trip meet in this predicate.
pub open spec fn text_envelope_for(key: Seq<char>, env: Seq<char>, orig: Seq<char>) -> bool {
    exists|d: Seq<u8>| env == b64_of(d) && envelope_for(encode_utf8(key), d, encode_utf8(orig))
}

/// `ct` is the base64 of the bare sealing of the text `orig` under the raw
/// bytes of `key` and `nonce`: what `encrypt_with_nonce` returns and what
/// `decrypt_with_nonce` opens back to `orig`.
pub open spec fn text_ciphertext_for(
    key: Seq<char>,
    nonce: Seq<char>,
    ct: Seq<char>,
    orig: Seq<char>,
) -> bool {
    exists|d: Seq<u8>| ct == b64_of(d) && sealed_pair(
        encode_utf8(key),
        encode_utf8(nonce),
        encode_utf8(orig),
        d,
    )
}

/// The salted fingerprint of a text: the lowercase hex rendering of the
/// SHA-256 digest of the UTF-8 bytes of `input` followed, with no
/// separator, by those of `salt`.
pub open spec fn hash_digest(input: Seq<char>, salt: Seq<char>) -> Seq<char> {
    hex_of(sha256_of(encode_utf8(input) + encode_utf8(salt)))
}

/// Hashing is deterministic: two digests of the same input and salt are
/// equal, whatever call produced them.
pub proof fn lemma_hash_deterministic(
    input: Seq<char>,
    salt: Seq<char>,
    r1: Seq<char>,
    r2: Seq<char>,
)
    requires
        r1 == hash_digest(input, salt),
        r2 == hash_digest(input, salt),
    ensures
        r1 == r2,
{
}

/// Salted SHA-256 fingerprint of `input` and `salt`, as 64 lowercase hex
/// characters.  Deterministic and unkeyed: a content fingerprint, not a
/// credential hash.
pub fn hash_string(input: &str, salt: &str) -> (r: String)
    ensures
        r@ == hash_digest(input@, salt@),
        r@.len() == 64,
{
    let digest = sha256_pair(input.as_bytes(), salt.as_bytes());
    proof {
        lemma_hex_len(digest@);
    }
    hex_lower(digest.as_slice())
}

/// Encrypt the text `data` under the raw bytes of `key` with a fresh random
/// nonce, returning the base64 envelope `nonce || ciphertext_with_tag`.
pub fn encrypt(key: &str, data: &str) -> (r: Result<String, CryptoError>)
    ensures
        r == Err::<String, CryptoError>(CryptoError::KeyLength) <==> !key_ok(encode_utf8(key@)),
        r == Err::<String, CryptoError>(CryptoError::MessageTooLong) <==> key_ok(
            encode_utf8(key@),
        ) && encode_utf8(data@).len() > MAX_PLAINTEXT_LEN,
        key_ok(encode_utf8(key@)) && encode_utf8(data@).len() <= MAX_PLAINTEXT_LEN ==> r is Ok,
        (match r {
            Ok(env) => text_envelope_for(key@, env@, data@),
            Err(e) => e is KeyLength || e is MessageTooLong,
        }),
{
    match seal_envelope(key.as_bytes(), data.as_bytes()) {
        Ok(env) => {
            let out = b64_encode(env.as_slice());
            proof {
                assert(out@ == b64_of(env@) && envelope_for(
                    encode_utf8(key@),
                    env@,
                    encode_utf8(data@),
                ));
                assert(text_envelope_for(key@, out@, data@));
            }
            Ok(out)
        },
        Err(e) => Err(e),
    }
}

/// Encrypt the text `data` under the raw bytes of `key` and the raw bytes
/// of the caller's `nonce`, returning the base64 of the bare
/// `ciphertext_with_tag`; the nonce is not embedded.  The caller bears the
/// obligation never to reuse one `(key, nonce)` pair for two plaintexts.
pub fn encrypt_with_nonce(key: &str, nonce: &str, data: &str) -> (r: Result<String, CryptoError>)
    ensures
        r == Err::<String, CryptoError>(CryptoError::KeyLength) <==> !key_ok(encode_utf8(key@)),
        r == Err::<String, CryptoError>(CryptoError::NonceLength) <==> key_ok(encode_utf8(key@))
            && !nonce_ok(encode_utf8(nonce@)),
        r == Err::<String, CryptoError>(CryptoError::MessageTooLong) <==> key_ok(
            encode_utf8(key@),
        ) && nonce_ok(encode_utf8(nonce@)) && encode_utf8(data@).len() > MAX_PLAINTEXT_LEN,
        key_ok(encode_utf8(key@)) && nonce_ok(encode_utf8(nonce@)) && encode_utf8(data@).len()
            <= MAX_PLAINTEXT_LEN ==> r is Ok,
        (match r {
            Ok(ct) => text_ciphertext_for(key@, nonce@, ct@, data@),
            Err(e) => e is KeyLength || e is NonceLength || e is MessageTooLong,
        }),
{
    match seal_raw(key.as_bytes(), nonce.as_bytes(), data.as_bytes()) {
        Ok(ct) => {
            let out = b64_encode(ct.as_slice());
            proof {
                assert(out@ == b64_of(ct@) && sealed_pair(
                    encode_utf8(key@),
                    encode_utf8(nonce@),
                    encode_utf8(data@),
                    ct@,
                ));
                assert(text_ciphertext_for(key@, nonce@, out@, data@));
            }
            Ok(out)
        },
        Err(e) => Err(e),
    }
}

/// Decrypt a base64 envelope `nonce || ciphertext_with_tag` under the raw
/// bytes of `key` and return the plaintext as text, with invalid UTF-8
/// replaced.  Fails closed: any envelope that no sealing under this key can
/// have produced is rejected whole.
pub fn decrypt(key: &str, nonce_ciphertext: &str) -> (r: Result<String, CryptoError>)
    ensures
        r == Err::<String, CryptoError>(CryptoError::KeyLength) <==> !key_ok(encode_utf8(key@)),
        r == Err::<String, CryptoError>(CryptoError::InvalidEncoding) <==> key_ok(
            encode_utf8(key@),
        ) && (forall|d: Seq<u8>| nonce_ciphertext@ != b64_of(d)),
        r == Err::<String, CryptoError>(CryptoError::PayloadTooShort) <==> key_ok(
            encode_utf8(key@),
        ) && (exists|d: Seq<u8>| nonce_ciphertext@ == b64_of(d) && d.len() <= NONCE_LEN),
        r == Err::<String, CryptoError>(CryptoError::AuthenticationFailure) <==> key_ok(
            encode_utf8(key@),
        ) && (exists|d: Seq<u8>|
            nonce_ciphertext@ == b64_of(d) && d.len() > NONCE_LEN && !(exists|p: Seq<u8>|
                envelope_for(encode_utf8(key@), d, p))),
        (match r {
            Ok(s) => (exists|d: Seq<u8>, p: Seq<u8>|
                nonce_ciphertext@ == b64_of(d) && envelope_for(encode_utf8(key@), d, p) && s@
                    == utf8_lossy_of(p)) && (forall|d: Seq<u8>, p: Seq<u8>|
                nonce_ciphertext@ == b64_of(d) && envelope_for(encode_utf8(key@), d, p) ==> s@
                    == utf8_lossy_of(p)),
            Err(e) => e is KeyLength || e is InvalidEncoding || e is PayloadTooShort
                || e is AuthenticationFailure,
        }),
        forall|orig: Seq<char>|
            text_envelope_for(key@, nonce_ciphertext@, orig) && key_ok(encode_utf8(key@)) ==> (
            r matches Ok(s) && s@ == orig),
{
    let kb = key.as_bytes();
    if kb.len() != KEY_LEN {
        return Err(CryptoError::KeyLength);
    }
    let decoded = match b64_decode(nonce_ciphertext) {
        Some(d) => d,
        None => {
            return Err(CryptoError::InvalidEncoding);
        },
    };
    match open_envelope(kb, decoded.as_slice()) {
        Ok(p) => {
            let s = bytes_to_text(p.as_slice());
            proof {
                assert(nonce_ciphertext@ == b64_of(decoded@) && envelope_for(
                    encode_utf8(key@),
                    decoded@,
                    p@,
                ) && s@ == utf8_lossy_of(p@));
                assert forall|orig: Seq<char>|
                    text_envelope_for(key@, nonce_ciphertext@, orig) && key_ok(
                        encode_utf8(key@),
                    ) implies s@ == orig by {
                    let d = choose|d: Seq<u8>|
                        nonce_ciphertext@ == b64_of(d) && envelope_for(
                            encode_utf8(key@),
                            d,
                            encode_utf8(orig),
                        );
                    assert(d == decoded@);
                    assert(p@ == encode_utf8(orig));
                }
            }
            Ok(s)
        },
        Err(e) => {
            proof {
                assert forall|orig: Seq<char>|
                    !(text_envelope_for(key@, nonce_ciphertext@, orig) && key_ok(
                        encode_utf8(key@),
                    )) by {
                    if text_envelope_for(key@, nonce_ciphertext@, orig) {
                        let d = choose|d: Seq<u8>|
                            nonce_ciphertext@ == b64_of(d) && envelope_for(
                                encode_utf8(key@),
                                d,
                                encode_utf8(orig),
                            );
                        assert(d == decoded@);
                        lemma_envelope_min_len(encode_utf8(key@), d, encode_utf8(orig));
                    }
                }
            }
            Err(e)
        },
    }
}

/// Decrypt the base64 of a bare `ciphertext_with_tag` under the raw bytes
/// of `key` and of the caller's `nonce`, returning the plaintext as text
/// with invalid UTF-8 replaced.
pub fn decrypt_with_nonce(key: &str, nonce: &str, ciphertext: &str) -> (r: Result<
    String,
    CryptoError,
>)
    ensures
        r == Err::<String, CryptoError>(CryptoError::KeyLength) <==> !key_ok(encode_utf8(key@)),
        r == Err::<String, CryptoError>(CryptoError::NonceLength) <==> key_ok(encode_utf8(key@))
            && !nonce_ok(encode_utf8(nonce@)),
        r == Err::<String, CryptoError>(CryptoError::InvalidEncoding) <==> key_ok(
            encode_utf8(key@),
        ) && nonce_ok(encode_utf8(nonce@)) && (forall|d: Seq<u8>| ciphertext@ != b64_of(d)),
        r == Err::<String, CryptoError>(CryptoError::AuthenticationFailure) <==> key_ok(
            encode_utf8(key@),
        ) && nonce_ok(encode_utf8(nonce@)) && (exists|d: Seq<u8>|
            ciphertext@ == b64_of(d) && !(exists|p: Seq<u8>|
                sealed_pair(encode_utf8(key@), encode_utf8(nonce@), p, d))),
        (match r {
            Ok(s) => (exists|d: Seq<u8>, p: Seq<u8>|
                ciphertext@ == b64_of(d) && sealed_pair(encode_utf8(key@), encode_utf8(nonce@), p, d)
                    && s@ == utf8_lossy_of(p)) && (forall|d: Seq<u8>, p: Seq<u8>|
                ciphertext@ == b64_of(d) && sealed_pair(encode_utf8(key@), encode_utf8(nonce@), p, d)
                    ==> s@ == utf8_lossy_of(p)),
            Err(e) => e is KeyLength || e is NonceLength || e is InvalidEncoding
                || e is AuthenticationFailure,
        }),
        forall|orig: Seq<char>|
            text_ciphertext_for(key@, nonce@, ciphertext@, orig) && key_ok(encode_utf8(key@))
                && nonce_ok(encode_utf8(nonce@)) ==> (r matches Ok(s) && s@ == orig),
{
    let kb = key.as_bytes();
    if kb.len() != KEY_LEN {
        return Err(CryptoError::KeyLength);
    }
    let nb = nonce.as_bytes();
    if nb.len() != NONCE_LEN {
        return Err(CryptoError::NonceLength);
    }
    let decoded = match b64_decode(ciphertext) {
        Some(d) => d,
        None => {
            return Err(CryptoError::InvalidEncoding);
        },
    };
    match open_raw(kb, nb, decoded.as_slice()) {
        Ok(p) => {
            let s = bytes_to_text(p.as_slice());
            proof {
                assert(ciphertext@ == b64_of(decoded@) && sealed_pair(
                    encode_utf8(key@),
                    encode_utf8(nonce@),
                    p@,
                    decoded@,
                ) && s@ == utf8_lossy_of(p@));
                assert forall|orig: Seq<char>|
                    text_ciphertext_for(key@, nonce@, ciphertext@, orig) && key_ok(
                        encode_utf8(key@),
                    ) && nonce_ok(encode_utf8(nonce@)) implies s@ == orig by {
                    let d = choose|d: Seq<u8>|
                        ciphertext@ == b64_of(d) && sealed_pair(
                            encode_utf8(key@),
                            encode_utf8(nonce@),
                            encode_utf8(orig),
                            d,
                        );
                    assert(d == decoded@);
                    assert(p@ == encode_utf8(orig));
                }
            }
            Ok(s)
        },
        Err(e) => {
            proof {
                assert forall|orig: Seq<char>|
                    !(text_ciphertext_for(key@, nonce@, ciphertext@, orig) && key_ok(
                        encode_utf8(key@),
                    ) && nonce_ok(encode_utf8(nonce@))) by {
                    if text_ciphertext_for(key@, nonce@, ciphertext@, orig) {
                        let d = choose|d: Seq<u8>|
                            ciphertext@ == b64_of(d) && sealed_pair(
                                encode_utf8(key@),
                                encode_utf8(nonce@),
                                encode_utf8(orig),
                                d,
                            );
                        assert(d == decoded@);
                    }
                }
            }
            Err(e)
        },
    }
}

/// Produce 32 bytes of cryptographically secure random key material,
/// base64-encoded for transport.  The raw key is the decoding of the
/// returned text: callers must base64-decode it before handing it to the
/// operations above, which take raw key bytes.
pub fn generate_key() -> (r: String)
    ensures
        exists|k: Seq<u8>| key_ok(k) && r@ == b64_of(k),
        r@.len() == 44,
{
    let k = random_bytes(KEY_LEN);
    let out = b64_encode(k.as_slice());
    proof {
        assert(key_ok(k@) && out@ == b64_of(k@));
    }
    out
}

/// Encrypt a raw byte buffer under the raw bytes of `key_str` with a fresh
/// random nonce, returning the raw envelope `nonce || ciphertext_with_tag`.
pub fn encrypt_file(key_str: &str, file_data: &[u8]) -> (r: Result<Vec<u8>, CryptoError>)
    ensures
        r == Err::<Vec<u8>, CryptoError>(CryptoError::KeyLength) <==> !key_ok(
            encode_utf8(key_str@),
        ),
        r == Err::<Vec<u8>, CryptoError>(CryptoError::MessageTooLong) <==> key_ok(
            encode_utf8(key_str@),
        ) && file_data@.len() > MAX_PLAINTEXT_LEN,
        key_ok(encode_utf8(key_str@)) && file_data@.len() <= MAX_PLAINTEXT_LEN ==> r is Ok,
        (match r {
            Ok(env) => envelope_for(encode_utf8(key_str@), env@, file_data@),
            Err(e) => e is KeyLength || e is MessageTooLong,
        }),
{
    seal_envelope(key_str.as_bytes(), file_data)
}

/// Encrypt a raw byte buffer under the raw bytes of `key_str` and of the
/// caller's `nonce_str`, returning the bare `ciphertext_with_tag`; the
/// nonce is not embedded and must be transported by the caller.
pub fn encrypt_file_with_nonce(key_str: &str, nonce_str: &str, file_data: &[u8]) -> (r: Result<
    Vec<u8>,
    CryptoError,
>)
    ensures
        r == Err::<Vec<u8>, CryptoError>(CryptoError::KeyLength) <==> !key_ok(
            encode_utf8(key_str@),
        ),
        r == Err::<Vec<u8>, CryptoError>(CryptoError::NonceLength) <==> key_ok(
            encode_utf8(key_str@),
        ) && !nonce_ok(encode_utf8(nonce_str@)),
        r == Err::<Vec<u8>, CryptoError>(CryptoError::MessageTooLong) <==> key_ok(
            encode_utf8(key_str@),
        ) && nonce_ok(encode_utf8(nonce_str@)) && file_data@.len() > MAX_PLAINTEXT_LEN,
        key_ok(encode_utf8(key_str@)) && nonce_ok(encode_utf8(nonce_str@)) && file_data@.len()
            <= MAX_PLAINTEXT_LEN ==> r is Ok,
        (match r {
            Ok(ct) => sealed_pair(
                encode_utf8(key_str@),
                encode_utf8(nonce_str@),
                file_data@,
                ct@,
            ),
            Err(e) => e is KeyLength || e is NonceLength || e is MessageTooLong,
        }),
{
    seal_raw(key_str.as_bytes(), nonce_str.as_bytes(), file_data)
}

/// Decrypt a raw envelope `nonce || ciphertext_with_tag` under the raw
/// bytes of `key_str`, returning the plaintext bytes.  Succeeds exactly on
/// the envelopes that sealing under this key can produce.
pub fn decrypt_file(key_str: &str, file_data: &[u8]) -> (r: Result<Vec<u8>, CryptoError>)
    ensures
        r == Err::<Vec<u8>, CryptoError>(CryptoError::KeyLength) <==> !key_ok(
            encode_utf8(key_str@),
        ),
        r == Err::<Vec<u8>, CryptoError>(CryptoError::PayloadTooShort) <==> key_ok(
            encode_utf8(key_str@),
        ) && file_data@.len() <= NONCE_LEN,
        r == Err::<Vec<u8>, CryptoError>(CryptoError::AuthenticationFailure) <==> key_ok(
            encode_utf8(key_str@),
        ) && file_data@.len() > NONCE_LEN && !(exists|p: Seq<u8>|
            envelope_for(encode_utf8(key_str@), file_data@, p)),
        (match r {
            Ok(p) => envelope_for(encode_utf8(key_str@), file_data@, p@) && (forall|q: Seq<u8>|
                envelope_for(encode_utf8(key_str@), file_data@, q) ==> p@ == q),
            Err(e) => e is KeyLength || e is PayloadTooShort || e is AuthenticationFailure,
        }),
{
    open_envelope(key_str.as_bytes(), file_data)
}

/// Decrypt a bare `ciphertext_with_tag` under the raw bytes of `key_str`
/// and of the caller's `nonce_str`, returning the plaintext bytes.
pub fn decrypt_file_with_nonce(key_str: &str, nonce_str: &str, file_data: &[u8]) -> (r: Result<
    Vec<u8>,
    CryptoError,
>)
    ensures
        r == Err::<Vec<u8>, CryptoError>(CryptoError::KeyLength) <==> !key_ok(
            encode_utf8(key_str@),
        ),
        r == Err::<Vec<u8>, CryptoError>(CryptoError::NonceLength) <==> key_ok(
            encode_utf8(key_str@),
        ) && !nonce_ok(encode_utf8(nonce_str@)),
        r == Err::<Vec<u8>, CryptoError>(CryptoError::AuthenticationFailure) <==> key_ok(
            encode_utf8(key_str@),
        ) && nonce_ok(encode_utf8(nonce_str@)) && !(exists|p: Seq<u8>|
            sealed_pair(encode_utf8(key_str@), encode_utf8(nonce_str@), p, file_data@)),
        (match r {
            Ok(p) => sealed_pair(encode_utf8(key_str@), encode_utf8(nonce_str@), p@, file_data@)
                && (forall|q: Seq<u8>|
                sealed_pair(encode_utf8(key_str@), encode_utf8(nonce_str@), q, file_data@) ==> p@
                    == q),
            Err(e) => e is KeyLength || e is NonceLength || e is AuthenticationFailure,
        }),
{
    open_raw(key_str.as_bytes(), nonce_str.as_bytes(), file_data)
}

} // verus!
