//! AES-256-GCM file encryption through `ring`.
//!
//! Files are sealed under a key derived from the 256-bit master key with
//! HKDF-SHA256.  An encrypted payload is
//! `[12-byte nonce][ciphertext + 16-byte tag]`.
//! Decryption must happen after the caller has checked authorization.
use vstd::prelude::*;
use vstd::string::StringSliceAdditionalSpecFns;
use vstd::utf8::encode_utf8;

use crate::app_error::{error_view, AppError};
use crate::hexcode::{hex_decode, hex_decode_spec, hex_error_display, hex_error_text};
use crate::text::{copy_bytes, decimal, extend_bytes, push_decimal};

verus! {

broadcast use vstd::string::group_string_axioms;

/// Size of the AES-256-GCM key in bytes.
pub const KEY_SIZE: usize = 32;

/// Size of the nonce in bytes.
pub const NONCE_SIZE: usize = 12;

/// Size of the GCM authentication tag in bytes.
pub const TAG_SIZE: usize = 16;

/// Overhead added by encryption: nonce (12) + tag (16) = 28 bytes.
pub const ENCRYPTION_OVERHEAD: usize = 28;

#[verifier::external_type_specification]
#[verifier::external_body]
pub struct ExRingUnspecified(ring::error::Unspecified);

/// AES-256-GCM sealing with an empty associated data: the ciphertext
/// followed by the tag, as a function of key, nonce and plaintext.
pub uninterp spec fn aes256_gcm_seal(key: Seq<u8>, nonce: Seq<u8>, plaintext: Seq<u8>) -> Seq<u8>;

/// AES-256-GCM opening with an empty associated data: the plaintext when the
/// tag authenticates, nothing otherwise.
pub uninterp spec fn aes256_gcm_open(key: Seq<u8>, nonce: Seq<u8>, sealed: Seq<u8>) -> Option<Seq<u8>>;

/// SHA-256 digest of a byte string.
pub uninterp spec fn sha256(data: Seq<u8>) -> Seq<u8>;

/// The first 32 bytes of HKDF-SHA256 output (RFC 5869) for a salt, input
/// keying material and info.
pub uninterp spec fn hkdf_sha256_32(salt: Seq<u8>, secret: Seq<u8>, info: Seq<u8>) -> Seq<u8>;

/// `ring::aead::LessSafeKey::seal_in_place_append_tag` with `AES_256_GCM`
/// and `Aad::empty()`, on a copy of `plaintext`.  On success the buffer holds
/// the ciphertext with the 16-byte tag appended, and opening it with the same
/// key and nonce gives the plaintext back (AEAD correctness).  The key is
/// built with `UnboundKey::new`, which the crate documents to fail only for a
/// key of the wrong length; sealing fails only for an input longer than
/// the crate's `MAX_IN_OUT_LEN` for AES-GCM (2^36 - 32 bytes), so every
/// shorter plaintext is sealed.
#[verifier::external_body]
fn ring_seal(key: &[u8; 32], nonce: [u8; 12], plaintext: &[u8]) -> (r: Result<Vec<u8>, ring::error::Unspecified>)
    ensures
        plaintext@.len() <= ring_max_in_out_len() ==> r is Ok,
        r matches Ok(c) ==> {
            &&& c@ == aes256_gcm_seal(key@, nonce@, plaintext@)
            &&& c@.len() == plaintext@.len() + 16
            &&& aes256_gcm_open(key@, nonce@, c@) == Some(plaintext@)
        },
{
    let k = ring::aead::LessSafeKey::new(ring::aead::UnboundKey::new(&ring::aead::AES_256_GCM, key)?);
    let mut in_out = plaintext.to_vec();
    k.seal_in_place_append_tag(ring::aead::Nonce::assume_unique_for_key(nonce), ring::aead::Aad::empty(), &mut in_out)?;
    Ok(in_out)
}

/// `ring::aead::LessSafeKey::open_in_place` with `AES_256_GCM` and
/// `Aad::empty()`, on a copy of `sealed`: the plaintext exactly when the tag
/// authenticates.
#[verifier::external_body]
fn ring_open(key: &[u8; 32], nonce: [u8; 12], sealed: &[u8]) -> (r: Result<Vec<u8>, ring::error::Unspecified>)
    ensures
        match aes256_gcm_open(key@, nonce@, sealed@) {
            Some(p) => r matches Ok(v) && v@ == p,
            None => r is Err,
        },
{
    let k = ring::aead::LessSafeKey::new(ring::aead::UnboundKey::new(&ring::aead::AES_256_GCM, key)?);
    let mut in_out = sealed.to_vec();
    let plain = k.open_in_place(ring::aead::Nonce::assume_unique_for_key(nonce), ring::aead::Aad::empty(), &mut in_out)?;
    Ok(plain.to_vec())
}

/// `ring::hkdf`: `Salt::new(HKDF_SHA256, salt).extract(secret)`, then
/// `expand(&[info], HKDF_SHA256)` and `fill` into a 32-byte array.  `expand`
/// fails only for an output longer than 255 digests and `fill` only for a
/// buffer of another length than the one asked for (32 bytes, the digest
/// length, in both), so the derivation always succeeds.
#[verifier::external_body]
fn ring_hkdf_sha256(salt: &[u8], secret: &[u8; 32], info: &[u8]) -> (r: Result<[u8; 32], ring::error::Unspecified>)
    ensures
        r is Ok,
        r matches Ok(k) ==> k@ == hkdf_sha256_32(salt@, secret@, info@),
{
    let prk = ring::hkdf::Salt::new(ring::hkdf::HKDF_SHA256, salt).extract(secret);
    let info_parts = [info];
    let okm = prk.expand(&info_parts, ring::hkdf::HKDF_SHA256)?;
    let mut out = [0u8; 32];
    okm.fill(&mut out)?;
    Ok(out)
}

/// `ring::rand::SystemRandom::fill` into a fresh 12-byte array.  The bytes
/// are random; nothing is stated of them.
#[verifier::external_body]
fn ring_random_nonce() -> (r: Result<[u8; 12], ring::error::Unspecified>) {
    let mut nonce = [0u8; 12];
    ring::rand::SecureRandom::fill(&ring::rand::SystemRandom::new(), &mut nonce)?;
    Ok(nonce)
}

/// `ring::digest` with `SHA256` over `data` (a `Context` updated once and
/// finished), as a 32-byte array.
#[verifier::external_body]
fn ring_sha256(data: &[u8]) -> (r: [u8; 32])
    ensures
        r@ == sha256(data@),
{
    let mut ctx = ring::digest::Context::new(&ring::digest::SHA256);
    ctx.update(data);
    let digest = ctx.finish();
    let mut key = [0u8; 32];
    key.copy_from_slice(digest.as_ref());
    key
}

/// `Display` of `ring::error::Unspecified`, which the crate writes as
/// "ring::error::Unspecified".
#[verifier::external_body]
fn ring_error_text(e: &ring::error::Unspecified) -> (s: String)
    ensures
        s@ == "ring::error::Unspecified"@,
{
    e.to_string()
}

/// The seed of the local development key.
pub open spec fn dev_key_seed() -> Seq<char> {
    "rust-tut-day1-local-dev-encryption-key-do-not-use-in-prod"@
}

/// The deterministic local development key: SHA-256 of the seed.
pub open spec fn dev_key() -> Seq<u8> {
    sha256(encode_utf8(dev_key_seed()))
}

/// The error for a key string that is not valid hexadecimal.
pub open spec fn key_not_hex_message(e: crate::hexcode::HexDecodeError) -> Seq<char> {
    "FILE_ENCRYPTION_KEY is not valid hex: "@ + hex_error_display(e)
}

/// The error for a key string that decodes to the wrong length.
pub open spec fn key_wrong_length_message(n_bytes: nat) -> Seq<char> {
    "FILE_ENCRYPTION_KEY must be exactly 64 hex chars (32 bytes), got "@ + decimal(n_bytes) + " chars"@
}

/// The key that `load_encryption_key` gives for the value of
/// `FILE_ENCRYPTION_KEY` (empty when the variable is unset), or the message
/// of its internal error.
pub open spec fn load_key_spec(key_hex: Seq<char>) -> Result<Seq<u8>, Seq<char>> {
    if key_hex.len() == 0 {
        Ok(dev_key())
    } else {
        match hex_decode_spec(encode_utf8(key_hex)) {
            Err(e) => Err(key_not_hex_message(e)),
            Ok(bytes) => if bytes.len() == 32 {
                Ok(bytes)
            } else {
                Err(key_wrong_length_message(encode_utf8(key_hex).len()))
            },
        }
    }
}

/// Derives the deterministic key for local development.
/// Never use it in production: always set `FILE_ENCRYPTION_KEY`.
pub fn derive_local_dev_key() -> (key: [u8; 32])
    ensures
        key@ == dev_key(),
{
    let seed = "rust-tut-day1-local-dev-encryption-key-do-not-use-in-prod";
    ring_sha256(seed.as_bytes())
}

/// Copies a 32-byte vector into an array.
pub fn key_array(bytes: &Vec<u8>) -> (key: [u8; 32])
    requires
        bytes@.len() == 32,
    ensures
        key@ == bytes@,
{
    let mut key = [0u8; 32];
    let mut i: usize = 0;
    while i < 32
        invariant
            bytes@.len() == 32,
            i <= 32,
            forall|j: int| 0 <= j < i ==> key@[j] == bytes@[j],
        decreases 32 - i,
    {
        key[i] = bytes[i];
        i += 1;
    }
    assert(key@ =~= bytes@);
    key
}

/// Loads the 256-bit master key from the value of `FILE_ENCRYPTION_KEY`
/// (64 hex characters); an empty value (the variable is unset) gives the
/// local development key.
pub fn load_encryption_key(env_key_hex: &str) -> (r: Result<[u8; 32], AppError>)
    ensures
        match load_key_spec(env_key_hex@) {
            Ok(k) => r matches Ok(key) && key@ == k,
            Err(m) => r matches Err(e) && error_view(e) == (5int, m),
        },
{
    let raw = env_key_hex.as_bytes();
    if raw.len() == 0 {
        return Ok(derive_local_dev_key());
    }
    match hex_decode(env_key_hex) {
        Err(e) => {
            let mut m = String::from_str("FILE_ENCRYPTION_KEY is not valid hex: ");
            let t = hex_error_text(e);
            m.append(t.as_str());
            Err(AppError::Internal(m))
        },
        Ok(bytes) => {
            if bytes.len() != 32 {
                let mut m = String::from_str("FILE_ENCRYPTION_KEY must be exactly 64 hex chars (32 bytes), got ");
                push_decimal(&mut m, raw.len() as u64);
                m.append(" chars");
                Err(AppError::Internal(m))
            } else {
                Ok(key_array(&bytes))
            }
        },
    }
}

/// The HKDF info that binds a derived key to file encryption.
pub open spec fn file_key_info() -> Seq<char> {
    "file-encryption/aes-256-gcm"@
}

/// The AES-256-GCM key that files are sealed under: HKDF-SHA256 of the
/// master key, with an empty salt and `file_key_info` as info.
pub open spec fn file_key(master: Seq<u8>) -> Seq<u8> {
    hkdf_sha256_32(Seq::empty(), master, encode_utf8(file_key_info()))
}

/// Derives the file key from the master key with HKDF-SHA256.
pub fn derive_file_key(master: &[u8; 32]) -> (k: [u8; 32])
    ensures
        k@ == file_key(master@),
{
    let salt: Vec<u8> = Vec::new();
    let info = "file-encryption/aes-256-gcm";
    match ring_hkdf_sha256(salt.as_slice(), master, info.as_bytes()) {
        Ok(k) => k,
        Err(_) => {
            proof {
                assert(false);
            }
            [0u8; 32]
        },
    }
}

/// The payload that `encrypt_file` produces for a given nonce: the nonce,
/// then the plaintext sealed under the file key derived from `key`.
pub open spec fn sealed_payload(key: Seq<u8>, nonce: Seq<u8>, plaintext: Seq<u8>) -> Seq<u8> {
    nonce + aes256_gcm_seal(file_key(key), nonce, plaintext)
}

pub open spec fn too_short_message() -> Seq<char> {
    "Ciphertext is too short to contain a valid encrypted file"@
}

pub open spec fn open_failed_message() -> Seq<char> {
    "Decryption failed: file may be corrupt or encryption key has changed"@
}

/// What `decrypt_file` gives for a payload: the plaintext, or the message of
/// its bad-request error.
pub open spec fn decrypt_spec(key: Seq<u8>, payload: Seq<u8>) -> Result<Seq<u8>, Seq<char>> {
    if payload.len() < 28 {
        Err(too_short_message())
    } else {
        match aes256_gcm_open(file_key(key), payload.take(12), payload.skip(12)) {
            Some(p) => Ok(p),
            None => Err(open_failed_message()),
        }
    }
}

/// The longest plaintext that `ring` seals with AES-256-GCM
/// (`MAX_IN_OUT_LEN`: 2^36 - 32 bytes).
pub open spec fn ring_max_in_out_len() -> nat {
    68719476704
}

/// The error of a failed nonce draw.
pub open spec fn nonce_failure_message() -> Seq<char> {
    "Failed to generate nonce: "@ + "ring::error::Unspecified"@
}

/// The error of a plaintext too long to seal.
pub open spec fn seal_failure_message() -> Seq<char> {
    "Encryption failed: "@ + "ring::error::Unspecified"@
}

/// The errors that encrypting `len` bytes can end in: the random source
/// failed, or the plaintext is too long to seal.
pub open spec fn encryption_failure(v: (int, Seq<char>), len: nat) -> bool {
    ||| v == (5int, nonce_failure_message())
    ||| (len > ring_max_in_out_len() && v == (5int, seal_failure_message()))
}

/// Seals `plaintext` under the file key derived from `key` and a given
/// nonce: `nonce || ciphertext || tag`.  Every plaintext up to 2^36 - 32 bytes is sealed; a longer one is
/// an internal error.
pub fn seal_payload(key: &[u8; 32], nonce: [u8; 12], plaintext: &[u8]) -> (r: Result<Vec<u8>, AppError>)
    ensures
        plaintext@.len() <= ring_max_in_out_len() ==> r is Ok,
        r matches Ok(c) ==> {
            &&& c@ == sealed_payload(key@, nonce@, plaintext@)
            &&& decrypt_spec(key@, c@) == Ok::<Seq<u8>, Seq<char>>(plaintext@)
            &&& c@.len() == plaintext@.len() + 28
        },
        r matches Err(e) ==> plaintext@.len() > ring_max_in_out_len() && error_view(e) == (5int, seal_failure_message()),
{
    let file_key = derive_file_key(key);
    let sealed = match ring_seal(&file_key, nonce, plaintext) {
        Ok(c) => c,
        Err(e) => {
            let mut m = String::from_str("Encryption failed: ");
            let t = ring_error_text(&e);
            m.append(t.as_str());
            return Err(AppError::Internal(m));
        },
    };
    let mut result: Vec<u8> = Vec::new();
    extend_bytes(&mut result, &nonce);
    extend_bytes(&mut result, sealed.as_slice());
    proof {
        let c = result@;
        assert(c == sealed_payload(key@, nonce@, plaintext@));
        assert(c.take(12) =~= nonce@);
        assert(c.skip(12) =~= sealed@);
    }
    Ok(result)
}

/// Encrypts `plaintext` with AES-256-GCM, under the file key derived from
/// the master `key` and a fresh random nonce, and returns `nonce || ciphertext || tag`.
///
/// Whatever nonce was drawn, a successful result decrypts back to
/// `plaintext` under the same key and is 28 bytes longer than it.  It fails
/// only when the random source fails, or for a plaintext over 2^36 - 32 bytes.
pub fn encrypt_file(plaintext: &[u8], key: &[u8; 32]) -> (r: Result<Vec<u8>, AppError>)
    ensures
        r matches Ok(c) ==> {
            &&& exists|nonce: Seq<u8>| nonce.len() == 12 && c@ == sealed_payload(key@, nonce, plaintext@)
            &&& decrypt_spec(key@, c@) == Ok::<Seq<u8>, Seq<char>>(plaintext@)
            &&& c@.len() == plaintext@.len() + 28
        },
        r matches Err(e) ==> encryption_failure(error_view(e), plaintext@.len()),
{
    let nonce = match ring_random_nonce() {
        Ok(n) => n,
        Err(e) => {
            let mut m = String::from_str("Failed to generate nonce: ");
            let t = ring_error_text(&e);
            m.append(t.as_str());
            return Err(AppError::Internal(m));
        },
    };
    seal_payload(key, nonce, plaintext)
}

/// Decrypts a payload produced by `encrypt_file` (`nonce || ciphertext || tag`)
/// under the file key derived from the master `key`.
/// Too-short payloads and payloads that do not authenticate under `key` are
/// bad requests.
pub fn decrypt_file(ciphertext: &[u8], key: &[u8; 32]) -> (r: Result<Vec<u8>, AppError>)
    ensures
        match decrypt_spec(key@, ciphertext@) {
            Ok(p) => r matches Ok(v) && v@ == p,
            Err(m) => r matches Err(e) && error_view(e) == (2int, m),
        },
{
    if ciphertext.len() < 28 {
        return Err(AppError::BadRequest(String::from_str(
            "Ciphertext is too short to contain a valid encrypted file",
        )));
    }
    let mut nonce = [0u8; 12];
    let mut i: usize = 0;
    while i < 12
        invariant
            ciphertext@.len() >= 28,
            i <= 12,
            forall|j: int| 0 <= j < i ==> nonce@[j] == ciphertext@[j],
        decreases 12 - i,
    {
        nonce[i] = ciphertext[i];
        i += 1;
    }
    assert(nonce@ =~= ciphertext@.take(12));
    let encrypted = copy_bytes(ciphertext, 12, ciphertext.len());
    assert(encrypted@ =~= ciphertext@.skip(12));
    let file_key = derive_file_key(key);
    match ring_open(&file_key, nonce, encrypted.as_slice()) {
        Ok(p) => Ok(p),
        Err(_) => Err(AppError::BadRequest(String::from_str(
            "Decryption failed: file may be corrupt or encryption key has changed",
        ))),
    }
}

/// Whether a byte slice is long enough to be an AES-256-GCM payload
/// (nonce plus tag).  A heuristic: there is no marker byte.
pub fn is_encrypted(data: &[u8]) -> (r: bool)
    ensures
        r == (data@.len() >= 28),
{
    data.len() >= ENCRYPTION_OVERHEAD
}

/// Every payload that decrypts is long enough for `is_encrypted` to
/// recognize it: whatever `encrypt_file` produced, `is_encrypted` accepts.
pub proof fn lemma_decryptable_is_encrypted(key: Seq<u8>, payload: Seq<u8>)
    requires
        decrypt_spec(key, payload) is Ok,
    ensures
        payload.len() >= 28,
{
}

} // verus!
