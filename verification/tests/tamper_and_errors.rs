use crypto_primitives::{
    decrypt, decrypt_file, decrypt_file_with_nonce, decrypt_with_nonce, encrypt, encrypt_file,
    encrypt_file_with_nonce, encrypt_with_nonce, CryptoError,
};

const KEY: &str = "0123456789abcdef0123456789abcdef";
const OTHER_KEY: &str = "abcdef0123456789abcdef0123456789";
const NONCE: &str = "unique nonce";

fn b64_decode(s: &str) -> Vec<u8> {
    base64::Engine::decode(&base64::engine::general_purpose::STANDARD, s).unwrap()
}

fn b64_encode(b: &[u8]) -> String {
    base64::Engine::encode(&base64::engine::general_purpose::STANDARD, b)
}

#[test]
fn tamper_detection_each_region() {
    let plaintext = "an authenticated message";
    let envelope = encrypt(KEY, plaintext).unwrap();
    let raw = b64_decode(&envelope);
    // one bit position in each of the nonce, ciphertext, and tag regions
    let positions = [0usize, 12, raw.len() - 1];
    for &pos in positions.iter() {
        let mut bad = raw.clone();
        bad[pos] ^= 1;
        let res = decrypt(KEY, &b64_encode(&bad));
        assert_eq!(res, Err(CryptoError::AuthenticationFailure));
    }
}

#[test]
fn tamper_detection_file() {
    let data: Vec<u8> = vec![5u8; 32];
    let mut envelope = encrypt_file(KEY, &data).unwrap();
    let last = envelope.len() - 1;
    envelope[last] ^= 0x80;
    assert_eq!(decrypt_file(KEY, &envelope), Err(CryptoError::AuthenticationFailure));
}

#[test]
fn wrong_key_fails_closed() {
    let envelope = encrypt(KEY, "secret").unwrap();
    assert_eq!(decrypt(OTHER_KEY, &envelope), Err(CryptoError::AuthenticationFailure));
}

#[test]
fn wrong_nonce_fails_closed() {
    let ciphertext = encrypt_with_nonce(KEY, NONCE, "secret").unwrap();
    assert_eq!(
        decrypt_with_nonce(KEY, "another12byt", &ciphertext),
        Err(CryptoError::AuthenticationFailure)
    );
}

#[test]
fn short_payload_rejected() {
    // any decoded payload of 12 bytes or fewer is rejected before decryption
    assert_eq!(
        decrypt(KEY, &b64_encode(&[7u8; 12])),
        Err(CryptoError::PayloadTooShort)
    );
    assert_eq!(
        decrypt(KEY, &b64_encode(b"short")),
        Err(CryptoError::PayloadTooShort)
    );
    assert_eq!(decrypt(KEY, ""), Err(CryptoError::PayloadTooShort));
    assert_eq!(
        decrypt_file(KEY, &[7u8; 12]),
        Err(CryptoError::PayloadTooShort)
    );
}

#[test]
fn invalid_base64_rejected() {
    assert_eq!(
        decrypt(KEY, "this is *not* base64!"),
        Err(CryptoError::InvalidEncoding)
    );
    assert_eq!(
        decrypt_with_nonce(KEY, NONCE, "@@@@"),
        Err(CryptoError::InvalidEncoding)
    );
    // non-canonical encodings (nonzero trailing bits) are not accepted either
    assert_eq!(decrypt(KEY, "AB=="), Err(CryptoError::InvalidEncoding));
}

#[test]
fn key_length_rejected_everywhere() {
    let short = "0123456789abcdef0123456789abcde"; // 31 bytes
    let long = "0123456789abcdef0123456789abcdefX"; // 33 bytes
    for key in [short, long] {
        assert_eq!(encrypt(key, "x"), Err(CryptoError::KeyLength));
        assert_eq!(encrypt_with_nonce(key, NONCE, "x"), Err(CryptoError::KeyLength));
        assert_eq!(decrypt(key, "x"), Err(CryptoError::KeyLength));
        assert_eq!(decrypt_with_nonce(key, NONCE, "x"), Err(CryptoError::KeyLength));
        assert_eq!(encrypt_file(key, b"x"), Err(CryptoError::KeyLength));
        assert_eq!(
            encrypt_file_with_nonce(key, NONCE, b"x"),
            Err(CryptoError::KeyLength)
        );
        assert_eq!(decrypt_file(key, b"x"), Err(CryptoError::KeyLength));
        assert_eq!(
            decrypt_file_with_nonce(key, NONCE, b"x"),
            Err(CryptoError::KeyLength)
        );
    }
}

#[test]
fn nonce_length_rejected() {
    for nonce in ["11 bytes...", "13 bytes.....", ""] {
        assert_eq!(
            encrypt_with_nonce(KEY, nonce, "x"),
            Err(CryptoError::NonceLength)
        );
        assert_eq!(
            decrypt_with_nonce(KEY, nonce, "x"),
            Err(CryptoError::NonceLength)
        );
        assert_eq!(
            encrypt_file_with_nonce(KEY, nonce, b"x"),
            Err(CryptoError::NonceLength)
        );
        assert_eq!(
            decrypt_file_with_nonce(KEY, nonce, b"x"),
            Err(CryptoError::NonceLength)
        );
    }
}

#[test]
fn key_check_precedes_nonce_check() {
    assert_eq!(encrypt_with_nonce("bad", "bad", "x"), Err(CryptoError::KeyLength));
}

#[test]
fn error_messages() {
    assert_eq!(CryptoError::KeyLength.message(), "key must be 32 bytes");
    assert_eq!(CryptoError::NonceLength.message(), "nonce must be 12 bytes");
    assert_eq!(CryptoError::AuthenticationFailure.message(), "decryption failed");
}
