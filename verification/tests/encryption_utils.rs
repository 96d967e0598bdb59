use axum_blueprint::storage::file_preprocess::encryption_utils::{
    decrypt_file, derive_file_key, encrypt_file, is_encrypted, load_encryption_key, seal_payload, KEY_SIZE,
    NONCE_SIZE,
};

#[test]
fn encrypt_decrypt_roundtrip() {
    let key = load_encryption_key("").unwrap();
    let plaintext = b"Hello, this is a test file with sensitive content!";

    let encrypted = encrypt_file(plaintext, &key).unwrap();
    assert!(encrypted.len() > plaintext.len());
    assert!(is_encrypted(&encrypted));

    let decrypted = decrypt_file(&encrypted, &key).unwrap();
    assert_eq!(decrypted, plaintext);
}

#[test]
fn encrypt_decrypt_empty_content() {
    let key = load_encryption_key("").unwrap();
    let plaintext = b"";

    let encrypted = encrypt_file(plaintext, &key).unwrap();
    let decrypted = decrypt_file(&encrypted, &key).unwrap();
    assert_eq!(decrypted, plaintext);
}

#[test]
fn decrypt_with_wrong_key_fails() {
    let key = load_encryption_key("").unwrap();
    let mut wrong_key = key;
    wrong_key[0] ^= 0x01;

    let plaintext = b"sensitive data";
    let encrypted = encrypt_file(plaintext, &key).unwrap();

    let result = decrypt_file(&encrypted, &wrong_key);
    assert!(result.is_err());
}

#[test]
fn decrypt_tampered_ciphertext_fails() {
    let key = load_encryption_key("").unwrap();
    let plaintext = b"tamper test";

    let mut encrypted = encrypt_file(plaintext, &key).unwrap();
    if encrypted.len() > NONCE_SIZE + 1 {
        encrypted[NONCE_SIZE + 5] ^= 0xff;
    }

    let result = decrypt_file(&encrypted, &key);
    assert!(result.is_err());
}

#[test]
fn decrypt_too_short_fails() {
    let key = load_encryption_key("").unwrap();
    let result = decrypt_file(b"too-short", &key);
    assert!(result.is_err());
}

#[test]
fn key_from_env_or_default() {
    let key = load_encryption_key("").unwrap();
    assert_eq!(key.len(), KEY_SIZE);
}

#[test]
fn is_encrypted_heuristic() {
    let key = load_encryption_key("").unwrap();
    assert!(!is_encrypted(b"small"));
    let encrypted = encrypt_file(b"some content that is long enough", &key).unwrap();
    assert!(is_encrypted(&encrypted));
}

#[test]
fn sealing_with_a_given_nonce() {
    let key = load_encryption_key("").unwrap();
    let nonce = [3u8; 12];
    let a = seal_payload(&key, nonce, b"abc").unwrap();
    assert_eq!(a, seal_payload(&key, nonce, b"abc").unwrap());
    assert_eq!(&a[..12], &nonce);
    assert_eq!(a.len(), 3 + 28);
    assert_eq!(decrypt_file(&a, &key).unwrap(), b"abc");
}

fn hkdf_reference(master: &[u8; 32]) -> [u8; 32] {
    let prk = ring::hkdf::Salt::new(ring::hkdf::HKDF_SHA256, &[]).extract(master);
    let info: [&[u8]; 1] = [b"file-encryption/aes-256-gcm"];
    let okm = prk.expand(&info, ring::hkdf::HKDF_SHA256).unwrap();
    let mut out = [0u8; 32];
    okm.fill(&mut out).unwrap();
    out
}

#[test]
fn file_key_is_derived_with_hkdf_sha256() {
    let master = [7u8; 32];
    let derived = derive_file_key(&master);
    assert_eq!(derived, hkdf_reference(&master));
    assert_ne!(derived, master);
}

#[test]
fn payload_is_sealed_under_the_derived_key() {
    let master = load_encryption_key("").unwrap();
    let nonce = [9u8; 12];
    let payload = seal_payload(&master, nonce, b"derived").unwrap();

    let open_with = |k: &[u8; 32]| {
        let key = ring::aead::LessSafeKey::new(ring::aead::UnboundKey::new(&ring::aead::AES_256_GCM, k).unwrap());
        let mut body = payload[12..].to_vec();
        key.open_in_place(ring::aead::Nonce::assume_unique_for_key(nonce), ring::aead::Aad::empty(), &mut body)
            .map(|p| p.to_vec())
    };
    assert_eq!(open_with(&hkdf_reference(&master)).unwrap(), b"derived");
    assert!(open_with(&master).is_err());
}
