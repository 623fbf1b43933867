use crypto_primitives::{
    decrypt, decrypt_file, decrypt_file_with_nonce, decrypt_with_nonce, encrypt, encrypt_file,
    encrypt_file_with_nonce, encrypt_with_nonce,
};

const KEY: &str = "0123456789abcdef0123456789abcdef";
const NONCE: &str = "unique nonce";

#[test]
fn round_trip_text() {
    let plaintext = "hello world";
    let envelope = encrypt(KEY, plaintext).unwrap();
    let out = decrypt(KEY, &envelope).unwrap();
    assert_eq!(out, plaintext);
}

#[test]
fn round_trip_empty_plaintext() {
    let envelope = encrypt(KEY, "").unwrap();
    let out = decrypt(KEY, &envelope).unwrap();
    assert_eq!(out, "");
}

#[test]
fn round_trip_non_ascii() {
    let plaintext = "caf\u{e9} \u{1f600} na\u{ef}ve";
    let envelope = encrypt(KEY, plaintext).unwrap();
    let out = decrypt(KEY, &envelope).unwrap();
    assert_eq!(out, plaintext);
}

#[test]
fn round_trip_with_explicit_nonce() {
    let plaintext = "out-of-band nonce transport";
    let ciphertext = encrypt_with_nonce(KEY, NONCE, plaintext).unwrap();
    let out = decrypt_with_nonce(KEY, NONCE, &ciphertext).unwrap();
    assert_eq!(out, plaintext);
}

#[test]
fn explicit_nonce_is_deterministic() {
    let a = encrypt_with_nonce(KEY, NONCE, "same message").unwrap();
    let b = encrypt_with_nonce(KEY, NONCE, "same message").unwrap();
    assert_eq!(a, b);
}

#[test]
fn round_trip_file() {
    let data: Vec<u8> = vec![0u8, 1, 2, 255, 254, 7];
    let envelope = encrypt_file(KEY, &data).unwrap();
    assert_eq!(envelope.len(), 12 + data.len() + 16);
    let out = decrypt_file(KEY, &envelope).unwrap();
    assert_eq!(out, data);
}

#[test]
fn round_trip_file_with_nonce() {
    let data: Vec<u8> = vec![42u8; 100];
    let ciphertext = encrypt_file_with_nonce(KEY, NONCE, &data).unwrap();
    assert_eq!(ciphertext.len(), data.len() + 16);
    let out = decrypt_file_with_nonce(KEY, NONCE, &ciphertext).unwrap();
    assert_eq!(out, data);
}

#[test]
fn ciphertext_differs_from_plaintext() {
    let data: Vec<u8> = vec![9u8; 64];
    let envelope = encrypt_file(KEY, &data).unwrap();
    assert_ne!(&envelope[12..12 + data.len()], data.as_slice());
}

#[test]
fn nonce_freshness() {
    let a = encrypt(KEY, "same message").unwrap();
    let b = encrypt(KEY, "same message").unwrap();
    assert_ne!(a, b);
    let da = base64::Engine::decode(&base64::engine::general_purpose::STANDARD, &a).unwrap();
    let db = base64::Engine::decode(&base64::engine::general_purpose::STANDARD, &b).unwrap();
    assert_ne!(&da[..12], &db[..12]);
}
