//! The failure taxonomy shared by every operation of the library.
//!
//! Every operation returns a tagged `Result` so that a failure can never be
//! confused with a successfully produced value.

use vstd::prelude::*;

verus! {

use vstd::string::StringExecFns;

/// Why an operation could not produce a value.
#[derive(Clone, Copy, Debug, PartialEq, Eq, Structural)]
pub enum CryptoError {
    /// The key is not exactly 32 bytes long.
    KeyLength,
    /// The explicit nonce is not exactly 12 bytes long.
    NonceLength,
    /// The base64 decoding of an envelope or ciphertext failed.
    InvalidEncoding,
    /// The decoded envelope is too short to hold a nonce and a tag.
    PayloadTooShort,
    /// The plaintext exceeds the largest message the cipher accepts.
    MessageTooLong,
    /// The authentication tag did not verify: the data was tampered with,
    /// or the key or nonce is wrong.
    AuthenticationFailure,
}

impl CryptoError {
    /// A human-readable description of the failure.
    pub fn message(&self) -> (r: String)
        ensures
            *self is KeyLength ==> r@ == "key must be 32 bytes"@,
            *self is NonceLength ==> r@ == "nonce must be 12 bytes"@,
            *self is InvalidEncoding ==> r@ == "invalid base64 ciphertext"@,
            *self is PayloadTooShort ==> r@ == "ciphertext too short"@,
            *self is MessageTooLong ==> r@ == "plaintext too long"@,
            *self is AuthenticationFailure ==> r@ == "decryption failed"@,
    {
        match self {
            CryptoError::KeyLength => String::from_str("key must be 32 bytes"),
            CryptoError::NonceLength => String::from_str("nonce must be 12 bytes"),
            CryptoError::InvalidEncoding => String::from_str("invalid base64 ciphertext"),
            CryptoError::PayloadTooShort => String::from_str("ciphertext too short"),
            CryptoError::MessageTooLong => String::from_str("plaintext too long"),
            CryptoError::AuthenticationFailure => String::from_str("decryption failed"),
        }
    }
}

} // verus!
