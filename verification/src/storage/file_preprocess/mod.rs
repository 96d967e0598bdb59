//! Swappable file preprocessing.
//!
//! Each deployment target (local server, Cloudflare Worker, AWS Lambda) has
//! its own preprocessor behind the common `FilePreprocessor` trait; the
//! implementation is chosen where the application state is built.
use vstd::prelude::*;
use vstd::string::StringSliceAdditionalSpecFns;
use vstd::utf8::encode_utf8;

use crate::app_error::{error_view, AppError};
use crate::hexcode::{hex_decode, hex_decode_spec, hex_error_display, hex_error_text};
use crate::text::{append_joined, chars_of, contains_str, join, lemma_rfind_char, rfind_char, rfind_char_in, views};

pub mod encryption_utils;
pub mod file_preprocess_aws_lambda;
pub mod file_preprocess_cf_worker;
pub mod file_preprocess_local;
pub mod image_codec;

use encryption_utils::{decrypt_file, decrypt_spec, encrypt_file, encryption_failure, key_array, load_encryption_key, load_key_spec, KEY_SIZE};

verus! {

broadcast use vstd::string::group_string_axioms;

/// Configuration for how a file is preprocessed.
#[derive(Debug, Clone)]
pub struct PreprocessingConfig {
    /// Maximum width/height for an image resize (0 = no resize).
    pub max_dimension: u32,
    /// Whether to convert images to WebP.
    pub convert_to_webp: bool,
    /// Allowed MIME types.  If empty, all types are accepted.
    pub allowed_mime_types: Vec<String>,
    /// Whether to encrypt the file after preprocessing (AES-256-GCM).
    pub encrypt_file: bool,
    /// Custom encryption key (hex).  If empty, `env_encryption_key_hex` is used.
    pub encryption_key_hex: String,
    /// The value of `FILE_ENCRYPTION_KEY` as the application read it from its
    /// environment (empty when unset, which selects the local development key).
    pub env_encryption_key_hex: String,
}

/// The MIME types that the default configuration accepts.
pub open spec fn default_image_types() -> Seq<Seq<char>> {
    seq!["image/jpeg"@, "image/png"@, "image/webp"@, "image/gif"@]
}

/// The four standard image MIME types, in order.
pub fn default_image_type_list() -> (v: Vec<String>)
    ensures
        views(v@) == default_image_types(),
{
    let mut v: Vec<String> = Vec::new();
    v.push(String::from_str("image/jpeg"));
    v.push(String::from_str("image/png"));
    v.push(String::from_str("image/webp"));
    v.push(String::from_str("image/gif"));
    assert(views(v@) =~= default_image_types());
    v
}

impl Default for PreprocessingConfig {
    /// Max 512 px, WebP conversion, the four standard image types, no
    /// encryption, no key override.
    fn default() -> (c: Self)
        ensures
            c.max_dimension == 512,
            c.convert_to_webp,
            views(c.allowed_mime_types@) == default_image_types(),
            !c.encrypt_file,
            c.encryption_key_hex@ == Seq::<char>::empty(),
            c.env_encryption_key_hex@ == Seq::<char>::empty(),
    {
        PreprocessingConfig {
            max_dimension: 512,
            convert_to_webp: true,
            allowed_mime_types: default_image_type_list(),
            encrypt_file: false,
            encryption_key_hex: String::new(),
            env_encryption_key_hex: String::new(),
        }
    }
}

/// Result of a preprocessing operation.
#[derive(Debug, Clone)]
pub struct PreprocessingResult {
    /// The (possibly transformed) file bytes.
    pub buffer: Vec<u8>,
    /// The (possibly changed) content type, e.g. "image/webp".
    pub content_type: String,
    /// The (possibly adjusted) file name.
    pub file_name: String,
    /// Whether `buffer` is encrypted.
    pub is_encrypted: bool,
}

/// The view of a preprocessing outcome: buffer, content type, file name and
/// encryption flag, or the error's variant and message.
pub open spec fn outcome_view(r: Result<PreprocessingResult, AppError>) -> Result<(Seq<u8>, Seq<char>, Seq<char>, bool), (int, Seq<char>)> {
    match r {
        Ok(p) => Ok((p.buffer@, p.content_type@, p.file_name@, p.is_encrypted)),
        Err(e) => Err(error_view(e)),
    }
}

/// Whether `content_type` passes the allow-list (an empty list allows everything).
pub open spec fn mime_allowed(content_type: Seq<char>, allowed: Seq<Seq<char>>) -> bool {
    allowed.len() == 0 || allowed.contains(content_type)
}

/// The message of the bad request for a type that is not allowed.
pub open spec fn unsupported_type_message(content_type: Seq<char>, allowed: Seq<Seq<char>>) -> Seq<char> {
    "Unsupported file type '"@ + content_type + "'. Allowed: "@ + join(allowed, ", "@)
}

/// Validates the MIME type against an allow-list; every preprocessor calls
/// this first.
pub fn validate_mime_type(content_type: &str, allowed: &[String]) -> (r: Result<(), AppError>)
    ensures
        mime_allowed(content_type@, views(allowed@)) <==> r is Ok,
        r matches Err(e) ==> error_view(e) == (2int, unsupported_type_message(content_type@, views(allowed@))),
{
    if allowed.len() == 0 {
        return Ok(());
    }
    if contains_str(allowed, content_type) {
        Ok(())
    } else {
        let mut m = String::from_str("Unsupported file type '");
        m.append(content_type);
        m.append("'. Allowed: ");
        append_joined(&mut m, allowed, ", ");
        Err(AppError::BadRequest(m))
    }
}

/// The base of a file name without its last extension: `None` when there is
/// no '.', or when the only base would be empty (the last '.' is the first
/// character).
pub open spec fn strip_extension_spec(name: Seq<char>) -> Option<Seq<char>> {
    match rfind_char(name, '.') {
        None => None,
        Some(i) => if i == 0 {
            None
        } else {
            Some(name.take(i))
        },
    }
}

/// Strips the last file extension: `"photo.jpeg"` gives `"photo"`, `"photo"`
/// gives `None`.
pub fn strip_extension(file_name: &str) -> (r: Option<&str>)
    ensures
        match strip_extension_spec(file_name@) {
            Some(b) => r matches Some(s) && s@ == b,
            None => r is None,
        },
{
    let chars = chars_of(file_name);
    proof {
        lemma_rfind_char(chars@, '.');
    }
    match rfind_char_in(&chars, '.') {
        None => None,
        Some(dot) => {
            if dot == 0 {
                None
            } else {
                Some(file_name.substring_char(0, dot))
            }
        },
    }
}

/// The key that a configuration's override gives, or the message of its
/// internal error; an empty override defers to the environment key.
pub open spec fn resolve_key_spec(override_hex: Seq<char>, env_hex: Seq<char>) -> Result<Seq<u8>, Seq<char>> {
    if override_hex.len() == 0 {
        load_key_spec(env_hex)
    } else {
        match hex_decode_spec(encode_utf8(override_hex)) {
            Err(e) => Err("Invalid encryption_key_hex: "@ + hex_error_display(e)),
            Ok(bytes) => if bytes.len() == 32 {
                Ok(bytes)
            } else {
                Err("encryption_key_hex must be 64 hex chars"@)
            },
        }
    }
}

/// Shared key resolution: the configured hex key, or else the environment key.
pub fn resolve_key_from_config(encryption_key_hex: &str, env_key_hex: &str) -> (r: Result<[u8; 32], AppError>)
    ensures
        match resolve_key_spec(encryption_key_hex@, env_key_hex@) {
            Ok(k) => r matches Ok(key) && key@ == k,
            Err(m) => r matches Err(e) && error_view(e) == (5int, m),
        },
{
    if encryption_key_hex.as_bytes().len() == 0 {
        return load_encryption_key(env_key_hex);
    }
    match hex_decode(encryption_key_hex) {
        Err(e) => {
            let mut m = String::from_str("Invalid encryption_key_hex: ");
            let t = hex_error_text(e);
            m.append(t.as_str());
            Err(AppError::Internal(m))
        },
        Ok(bytes) => {
            if bytes.len() != KEY_SIZE {
                Err(AppError::Internal(String::from_str("encryption_key_hex must be 64 hex chars")))
            } else {
                Ok(key_array(&bytes))
            }
        },
    }
}

/// Every file preprocessor implements this trait.
pub trait FilePreprocessor {
    /// The key this preprocessor encrypts with, or its error message.
    spec fn key_spec(&self) -> Result<Seq<u8>, Seq<char>>;

    /// What this preprocessor may give for a buffer, content type and name.
    spec fn outcome_spec(
        &self,
        buffer: Seq<u8>,
        content_type: Seq<char>,
        file_name: Seq<char>,
        out: Result<(Seq<u8>, Seq<char>, Seq<char>, bool), (int, Seq<char>)>,
    ) -> bool;

    /// Validates and preprocesses a file buffer.
    fn preprocess(&self, buffer: &[u8], content_type: &str, file_name: &str) -> (r: Result<PreprocessingResult, AppError>)
        ensures
            self.outcome_spec(buffer@, content_type@, file_name@, outcome_view(r)),
    ;

    /// Resolves the encryption key: the configured key, else the
    /// environment key, else the local development key.
    fn resolve_encryption_key(&self) -> (r: Result<[u8; 32], AppError>)
        ensures
            match self.key_spec() {
                Ok(k) => r matches Ok(key) && key@ == k,
                Err(m) => r matches Err(e) && error_view(e) == (5int, m),
            };

    /// Encrypts a preprocessed buffer with AES-256-GCM under the resolved key.
    fn encrypt(&self, buffer: &[u8]) -> (r: Result<Vec<u8>, AppError>)
        ensures
            r matches Ok(c) ==> (self.key_spec() matches Ok(k) && decrypt_spec(k, c@) == Ok::<Seq<u8>, Seq<char>>(buffer@)
                && c@.len() == buffer@.len() + 28),
            r matches Err(e) ==> match self.key_spec() {
                Err(m) => error_view(e) == (5int, m),
                Ok(_) => encryption_failure(error_view(e), buffer@.len()),
            },
    {
        match self.resolve_encryption_key() {
            Ok(key) => encrypt_file(buffer, &key),
            Err(e) => Err(e),
        }
    }

    /// Decrypts a buffer previously encrypted under the resolved key.  Call
    /// it only after authorization has been checked.
    fn decrypt(&self, encrypted: &[u8]) -> (r: Result<Vec<u8>, AppError>)
        ensures
            match self.key_spec() {
                Err(m) => r matches Err(e) && error_view(e) == (5int, m),
                Ok(k) => match decrypt_spec(k, encrypted@) {
                    Ok(p) => r matches Ok(v) && v@ == p,
                    Err(m) => r matches Err(e) && error_view(e) == (2int, m),
                },
            },
    {
        match self.resolve_encryption_key() {
            Ok(key) => decrypt_file(encrypted, &key),
            Err(e) => Err(e),
        }
    }
}

} // verus!
