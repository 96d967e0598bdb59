//! AES-256-GCM file encryption for the Worker, through the pure-Rust
//! `aes-gcm` crate (WASM-compatible).
//!
//! A payload is `[12-byte nonce][ciphertext + 16-byte tag]`.  Decryption
//! must happen after authorization.
use aes_gcm::aead::{Aead, KeyInit};
use vstd::prelude::*;
use vstd::utf8::encode_utf8;

use crate::entropy::os_random_bytes;
use crate::hexcode::{hex_decode, hex_decode_spec, hex_error_display, hex_error_text};
use crate::storage::file_preprocess::encryption_utils::key_array;
use crate::text::{copy_bytes, decimal, extend_bytes, push_decimal};

verus! {

broadcast use vstd::string::group_string_axioms;

/// Size of the AES-256-GCM key in bytes.
pub const KEY_SIZE: usize = 32;

/// Size of the nonce in bytes.
pub const NONCE_SIZE: usize = 12;

/// Overhead: nonce (12) + GCM tag (16) = 28 bytes.
pub const ENCRYPTION_OVERHEAD: usize = 28;

#[verifier::external_type_specification]
#[verifier::external_body]
pub struct ExAeadError(aes_gcm::Error);

/// `aes_gcm::Aes256Gcm` encryption (empty associated data): ciphertext with
/// the tag appended, as a function of key, nonce and plaintext.
pub uninterp spec fn aes256gcm_encrypt(key: Seq<u8>, nonce: Seq<u8>, plaintext: Seq<u8>) -> Seq<u8>;

/// `aes_gcm::Aes256Gcm` decryption (empty associated data): the plaintext
/// when the tag authenticates.
pub uninterp spec fn aes256gcm_decrypt(key: Seq<u8>, nonce: Seq<u8>, ciphertext: Seq<u8>) -> Option<Seq<u8>>;

/// `aes_gcm::aead::Aead::encrypt` of an `Aes256Gcm` built from the key
/// (`KeyInit::new`, infallible for a 32-byte key).  On success the result is
/// the ciphertext with its 16-byte tag, and decrypting it with the same key
/// and nonce gives the plaintext back (AEAD correctness).  The crate refuses
/// only a plaintext over its `P_MAX` of 2^36 bytes (the associated data is
/// empty), so every shorter plaintext is encrypted.
#[verifier::external_body]
fn aes_gcm_encrypt(key: &[u8; 32], nonce: &[u8; 12], plaintext: &[u8]) -> (r: Result<Vec<u8>, aes_gcm::Error>)
    ensures
        plaintext@.len() <= aes_gcm_p_max() ==> r is Ok,
        r matches Ok(c) ==> {
            &&& c@ == aes256gcm_encrypt(key@, nonce@, plaintext@)
            &&& c@.len() == plaintext@.len() + 16
            &&& aes256gcm_decrypt(key@, nonce@, c@) == Some(plaintext@)
        },
{
    aes_gcm::Aes256Gcm::new(key.into()).encrypt(nonce.into(), plaintext)
}

/// `aes_gcm::aead::Aead::decrypt` of an `Aes256Gcm` built from the key: the
/// plaintext exactly when the tag authenticates.
#[verifier::external_body]
fn aes_gcm_decrypt(key: &[u8; 32], nonce: &[u8; 12], ciphertext: &[u8]) -> (r: Result<Vec<u8>, aes_gcm::Error>)
    ensures
        match aes256gcm_decrypt(key@, nonce@, ciphertext@) {
            Some(p) => r matches Ok(v) && v@ == p,
            None => r is Err,
        },
{
    aes_gcm::Aes256Gcm::new(key.into()).decrypt(nonce.into(), ciphertext)
}

/// `Display` of `aes_gcm::Error`, which the `aead` crate writes as "aead::Error".
#[verifier::external_body]
fn aead_error_text(e: &aes_gcm::Error) -> (s: String)
    ensures
        s@ == "aead::Error"@,
{
    e.to_string()
}

/// The key for the value of `FILE_ENCRYPTION_KEY` (`None` when unset), or
/// the error message.
pub open spec fn worker_key_spec(env_key_hex: Option<Seq<char>>) -> Result<Seq<u8>, Seq<char>> {
    match env_key_hex {
        None => Err("FILE_ENCRYPTION_KEY environment variable not set"@),
        Some(h) => match hex_decode_spec(encode_utf8(h)) {
            Err(e) => Err("FILE_ENCRYPTION_KEY is not valid hex: "@ + hex_error_display(e)),
            Ok(bytes) => if bytes.len() == 32 {
                Ok(bytes)
            } else {
                Err("FILE_ENCRYPTION_KEY must be exactly 64 hex chars, got "@ + decimal(encode_utf8(h).len()))
            },
        },
    }
}

/// Loads the encryption key from the value of `FILE_ENCRYPTION_KEY`
/// (`None` when the variable is unset): 64 hex characters.
pub fn load_encryption_key(env_key_hex: Option<&str>) -> (r: Result<[u8; 32], String>)
    ensures
        match worker_key_spec(match env_key_hex { Some(h) => Some(h@), None => None }) {
            Ok(k) => r matches Ok(key) && key@ == k,
            Err(m) => r matches Err(e) && e@ == m,
        },
{
    let key_hex = match env_key_hex {
        Some(h) => h,
        None => return Err(String::from_str("FILE_ENCRYPTION_KEY environment variable not set")),
    };
    match hex_decode(key_hex) {
        Err(e) => {
            let mut m = String::from_str("FILE_ENCRYPTION_KEY is not valid hex: ");
            let t = hex_error_text(e);
            m.append(t.as_str());
            Err(m)
        },
        Ok(bytes) => {
            if bytes.len() != KEY_SIZE {
                let mut m = String::from_str("FILE_ENCRYPTION_KEY must be exactly 64 hex chars, got ");
                push_decimal(&mut m, key_hex.as_bytes().len() as u64);
                Err(m)
            } else {
                Ok(key_array(&bytes))
            }
        },
    }
}

/// What `decrypt_file` gives for a payload: the plaintext or the error message.
pub open spec fn worker_decrypt_spec(key: Seq<u8>, payload: Seq<u8>) -> Result<Seq<u8>, Seq<char>> {
    if payload.len() < 28 {
        Err("Ciphertext too short"@)
    } else {
        match aes256gcm_decrypt(key, payload.take(12), payload.skip(12)) {
            Some(p) => Ok(p),
            None => Err("Decryption failed: file corrupt or wrong key"@),
        }
    }
}

/// The longest plaintext that `aes-gcm` encrypts (`P_MAX`: 2^36 bytes).
pub open spec fn aes_gcm_p_max() -> nat {
    68719476736
}

/// The message of a plaintext too long to encrypt.
pub open spec fn worker_seal_failure() -> Seq<char> {
    "Encryption failed: "@ + "aead::Error"@
}

/// Whether `m` is the message of a failed nonce draw.
pub open spec fn nonce_failure(m: Seq<char>) -> bool {
    exists|t: Seq<char>| m == "Failed to generate nonce: "@ + t
}

/// Encrypts `plaintext` under `key` and a given nonce: `nonce || ciphertext
/// || tag`.  Every plaintext up to 2^36 bytes is encrypted.
pub fn seal_with_nonce(plaintext: &[u8], key: &[u8; 32], nonce: &[u8; 12]) -> (r: Result<Vec<u8>, String>)
    ensures
        plaintext@.len() <= aes_gcm_p_max() ==> r is Ok,
        r matches Ok(c) ==> {
            &&& c@ == nonce@ + aes256gcm_encrypt(key@, nonce@, plaintext@)
            &&& worker_decrypt_spec(key@, c@) == Ok::<Seq<u8>, Seq<char>>(plaintext@)
            &&& c@.len() == plaintext@.len() + 28
        },
        r matches Err(e) ==> plaintext@.len() > aes_gcm_p_max() && e@ == worker_seal_failure(),
{
    let ciphertext = match aes_gcm_encrypt(key, nonce, plaintext) {
        Ok(c) => c,
        Err(e) => {
            let mut m = String::from_str("Encryption failed: ");
            let t = aead_error_text(&e);
            m.append(t.as_str());
            return Err(m);
        },
    };
    let mut result: Vec<u8> = Vec::new();
    extend_bytes(&mut result, nonce);
    extend_bytes(&mut result, ciphertext.as_slice());
    proof {
        assert(result@.take(12) =~= nonce@);
        assert(result@.skip(12) =~= ciphertext@);
    }
    Ok(result)
}

/// Encrypts `plaintext` under a fresh random nonce from the operating
/// system; returns `nonce || ciphertext || tag`, which decrypts back to the
/// plaintext.  It fails only when the random source fails, or for a
/// plaintext over 2^36 bytes.
pub fn encrypt_file(plaintext: &[u8], key: &[u8; 32]) -> (r: Result<Vec<u8>, String>)
    ensures
        r matches Ok(c) ==> {
            &&& exists|nonce: Seq<u8>| nonce.len() == 12 && c@ == nonce + aes256gcm_encrypt(key@, nonce, plaintext@)
            &&& worker_decrypt_spec(key@, c@) == Ok::<Seq<u8>, Seq<char>>(plaintext@)
            &&& c@.len() == plaintext@.len() + 28
        },
        r matches Err(e) ==> nonce_failure(e@) || (plaintext@.len() > aes_gcm_p_max() && e@ == worker_seal_failure()),
{
    let bytes = match os_random_bytes(NONCE_SIZE) {
        Ok(b) => b,
        Err(t) => {
            let mut m = String::from_str("Failed to generate nonce: ");
            m.append(t.as_str());
            return Err(m);
        },
    };
    let mut nonce = [0u8; 12];
    let mut i: usize = 0;
    while i < 12
        invariant
            bytes@.len() == 12,
            i <= 12,
            forall|j: int| 0 <= j < i ==> nonce@[j] == bytes@[j],
        decreases 12 - i,
    {
        nonce[i] = bytes[i];
        i += 1;
    }
    seal_with_nonce(plaintext, key, &nonce)
}

/// Decrypts a payload produced by `encrypt_file`.
pub fn decrypt_file(ciphertext: &[u8], key: &[u8; 32]) -> (r: Result<Vec<u8>, String>)
    ensures
        match worker_decrypt_spec(key@, ciphertext@) {
            Ok(p) => r matches Ok(v) && v@ == p,
            Err(m) => r matches Err(e) && e@ == m,
        },
{
    if ciphertext.len() < ENCRYPTION_OVERHEAD {
        return Err(String::from_str("Ciphertext too short"));
    }
    let mut nonce = [0u8; 12];
    let mut i: usize = 0;
    while i < 12
        invariant
            ciphertext@.len() >= 28,
            i <= 12,
            forall|j: int| 0 <= j < i ==> nonce@[j] == ciphertext@[j],
        decreases 12 - i,
    {
        nonce[i] = ciphertext[i];
        i += 1;
    }
    assert(nonce@ =~= ciphertext@.take(12));
    let encrypted = copy_bytes(ciphertext, NONCE_SIZE, ciphertext.len());
    assert(encrypted@ =~= ciphertext@.skip(12));
    match aes_gcm_decrypt(key, &nonce, encrypted.as_slice()) {
        Ok(p) => Ok(p),
        Err(_) => Err(String::from_str("Decryption failed: file corrupt or wrong key")),
    }
}

} // verus!
