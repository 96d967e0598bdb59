//! Validation-only preprocessor for deployments behind a Cloudflare Worker:
//! it checks size and MIME type and passes the file through unchanged (image
//! work, if any, happens in the Worker itself).
use vstd::prelude::*;

use crate::app_error::AppError;
use crate::text::{copy_bytes, decimal, push_decimal, views};

use super::{
    mime_allowed, resolve_key_from_config, resolve_key_spec, unsupported_type_message,
    validate_mime_type, FilePreprocessor, PreprocessingConfig, PreprocessingResult,
};

verus! {

broadcast use vstd::string::group_string_axioms;

/// Maximum file size for Cloudflare Worker uploads (10 MB).
pub const CF_MAX_FILE_SIZE: usize = 10485760;

/// The message of the bad request for a file over the size limit.
pub open spec fn too_large_message() -> Seq<char> {
    "File exceeds maximum size of "@ + decimal(10485760) + " bytes"@
}

/// The message of the bad request for an empty file.
pub open spec fn empty_file_message() -> Seq<char> {
    "Uploaded file is empty"@
}

/// What `check_file_size` decides for a buffer of `len` bytes.
pub open spec fn size_check_spec(len: nat) -> Result<(), Seq<char>> {
    if len > 10485760 {
        Err(too_large_message())
    } else if len == 0 {
        Err(empty_file_message())
    } else {
        Ok(())
    }
}

/// What the Cloudflare Worker preprocessor gives: the file unchanged when it
/// is non-empty, at most 10 MB and of an allowed type.
pub open spec fn cf_preprocess_spec(
    config: PreprocessingConfig,
    buffer: Seq<u8>,
    content_type: Seq<char>,
    file_name: Seq<char>,
) -> Result<(Seq<u8>, Seq<char>, Seq<char>, bool), (int, Seq<char>)> {
    match size_check_spec(buffer.len()) {
        Err(m) => Err((2, m)),
        Ok(_) => if !mime_allowed(content_type, views(config.allowed_mime_types@)) {
            Err((2, unsupported_type_message(content_type, views(config.allowed_mime_types@))))
        } else {
            Ok((buffer, content_type, file_name, false))
        },
    }
}

/// Cloudflare Worker file preprocessor: validates and passes through.
pub struct CfWorkerFilePreprocessor {
    config: PreprocessingConfig,
}

impl CfWorkerFilePreprocessor {
    /// The configuration this preprocessor was built with.
    pub closed spec fn configuration(&self) -> PreprocessingConfig {
        self.config
    }

    /// A preprocessor with the default configuration.
    pub fn new() -> (p: Self)
        ensures
            p.configuration().max_dimension == 512,
            p.configuration().convert_to_webp,
            views(p.configuration().allowed_mime_types@) == super::default_image_types(),
            !p.configuration().encrypt_file,
            p.configuration().encryption_key_hex@ == Seq::<char>::empty(),
            p.configuration().env_encryption_key_hex@ == Seq::<char>::empty(),
    {
        CfWorkerFilePreprocessor { config: PreprocessingConfig::default() }
    }

    /// A preprocessor with a custom configuration.
    pub fn with_config(config: PreprocessingConfig) -> (p: Self)
        ensures
            p.configuration() == config,
    {
        CfWorkerFilePreprocessor { config }
    }

    /// Checks the file size against the limit; empty files are refused too.
    pub fn check_file_size(buffer: &[u8]) -> (r: Result<(), AppError>)
        ensures
            match size_check_spec(buffer@.len()) {
                Ok(_) => r is Ok,
                Err(m) => r matches Err(e) && crate::app_error::error_view(e) == (2int, m),
            },
    {
        if buffer.len() > CF_MAX_FILE_SIZE {
            let mut m = String::from_str("File exceeds maximum size of ");
            push_decimal(&mut m, CF_MAX_FILE_SIZE as u64);
            m.append(" bytes");
            return Err(AppError::BadRequest(m));
        }
        if buffer.len() == 0 {
            return Err(AppError::BadRequest(String::from_str("Uploaded file is empty")));
        }
        Ok(())
    }
}

impl Default for CfWorkerFilePreprocessor {
    fn default() -> (p: Self)
        ensures
            views(p.configuration().allowed_mime_types@) == super::default_image_types(),
            !p.configuration().encrypt_file,
    {
        Self::new()
    }
}

impl FilePreprocessor for CfWorkerFilePreprocessor {
    open spec fn key_spec(&self) -> Result<Seq<u8>, Seq<char>> {
        resolve_key_spec(self.configuration().encryption_key_hex@, self.configuration().env_encryption_key_hex@)
    }

    open spec fn outcome_spec(
        &self,
        buffer: Seq<u8>,
        content_type: Seq<char>,
        file_name: Seq<char>,
        out: Result<(Seq<u8>, Seq<char>, Seq<char>, bool), (int, Seq<char>)>,
    ) -> bool {
        out == cf_preprocess_spec(self.configuration(), buffer, content_type, file_name)
    }

    /// Checks size and MIME type, then returns the file unchanged.
    fn preprocess(&self, buffer: &[u8], content_type: &str, file_name: &str) -> (r: Result<PreprocessingResult, AppError>)
    {
        if let Err(e) = Self::check_file_size(buffer) {
            return Err(e);
        }
        if let Err(e) = validate_mime_type(content_type, self.config.allowed_mime_types.as_slice()) {
            return Err(e);
        }
        let copy = copy_bytes(buffer, 0, buffer.len());
        assert(copy@ =~= buffer@);
        Ok(PreprocessingResult {
            buffer: copy,
            content_type: String::from_str(content_type),
            file_name: String::from_str(file_name),
            is_encrypted: false,
        })
    }

    fn resolve_encryption_key(&self) -> (r: Result<[u8; 32], AppError>) {
        resolve_key_from_config(self.config.encryption_key_hex.as_str(), self.config.env_encryption_key_hex.as_str())
    }
}

} // verus!
