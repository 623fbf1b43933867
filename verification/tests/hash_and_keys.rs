use crypto_primitives::{generate_key, hash_string};
use sha2::Digest;

#[test]
fn hash_is_deterministic() {
    assert_eq!(hash_string("abc", "salt"), hash_string("abc", "salt"));
    assert_eq!(hash_string("", ""), hash_string("", ""));
}

#[test]
fn hash_matches_digest_of_concatenation() {
    let digest = sha2::Sha256::digest(b"abcsalt");
    let expected = hex::encode(digest);
    assert_eq!(hash_string("abc", "salt"), expected);
}

#[test]
fn hash_of_empty_input() {
    // the well-known SHA-256 digest of the empty byte string
    assert_eq!(
        hash_string("", ""),
        "e3b0c44298fc1c149afbf4c8996fb92427ae41e4649b934ca495991b7852b855"
    );
}

#[test]
fn hash_is_lowercase_hex_of_64_chars() {
    let h = hash_string("input", "salt");
    assert_eq!(h.len(), 64);
    assert!(h.chars().all(|c| c.is_ascii_hexdigit() && !c.is_ascii_uppercase()));
}

#[test]
fn hash_depends_on_input_and_salt() {
    assert_ne!(hash_string("abc", "salt"), hash_string("abd", "salt"));
    assert_ne!(hash_string("abc", "salt"), hash_string("abc", "tlas"));
}

#[test]
fn generated_keys_differ() {
    assert_ne!(generate_key(), generate_key());
}

#[test]
fn generated_key_decodes_to_32_bytes() {
    let key = generate_key();
    assert_eq!(key.len(), 44);
    let raw = base64::Engine::decode(&base64::engine::general_purpose::STANDARD, &key).unwrap();
    assert_eq!(raw.len(), 32);
}

#[test]
fn library_matches_cipher_directly() {
    // the sealing the library performs is the one the cipher itself performs
    let key = b"0123456789abcdef0123456789abcdef";
    let nonce = b"unique nonce";
    let data = b"compare against the cipher";
    let cipher = <aes_gcm::Aes256Gcm as aes_gcm::KeyInit>::new(key.into());
    let direct =
        aes_gcm::aead::Aead::encrypt(&cipher, nonce.into(), data.as_slice()).unwrap();
    let ct = crypto_primitives::encrypt_file_with_nonce(
        "0123456789abcdef0123456789abcdef",
        "unique nonce",
        data,
    )
    .unwrap();
    assert_eq!(ct, direct);
}
