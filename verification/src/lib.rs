//! Authenticated encryption (AES-256-GCM) and salted hashing (SHA-256)
//! primitives over byte strings and text strings.
//!
//! Six operation families share one sealed-envelope core: encryption with a
//! fresh random nonce (self-describing envelope), encryption under a
//! caller-supplied nonce (bare ciphertext), the matching decryptions, a
//! salted SHA-256 fingerprint, and key generation.  Every operation returns
//! a tagged `Result`, so a failure can never be mistaken for a value.

use vstd::prelude::*;

pub mod aead;
pub mod api;
pub mod codec;
pub mod envelope;
pub mod errors;
pub mod hashing;
pub mod random;
pub mod text;

pub use crate::api::{
    decrypt, decrypt_file, decrypt_file_with_nonce, decrypt_with_nonce, encrypt, encrypt_file,
    encrypt_file_with_nonce, encrypt_with_nonce, generate_key, hash_string,
};
pub use crate::errors::CryptoError;

verus! {

/// Length in bytes of an AES-256 key.
pub const KEY_LEN: usize = 32;

/// Length in bytes of a GCM standard nonce.
pub const NONCE_LEN: usize = 12;

/// Length in bytes of a GCM authentication tag.
pub const TAG_LEN: usize = 16;

/// A key is valid when it is exactly 32 bytes long.
pub open spec fn key_ok(key: Seq<u8>) -> bool {
    key.len() == KEY_LEN
}

/// A nonce is valid when it is exactly 12 bytes long.
pub open spec fn nonce_ok(nonce: Seq<u8>) -> bool {
    nonce.len() == NONCE_LEN
}

} // verus!
