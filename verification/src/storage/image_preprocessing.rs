//! The profile-image pipeline with fixed settings, kept for callers that
//! predate the `FilePreprocessor` trait: it delegates to a
//! `LocalFilePreprocessor` configured for 512 px WebP images.
use vstd::prelude::*;

use crate::app_error::{error_view, AppError};
use crate::text::views;

use super::file_preprocess::file_preprocess_local::{encoding_spec, local_encoding, local_outcome_ok, LocalFilePreprocessor};
use super::file_preprocess::{
    default_image_type_list, default_image_types, outcome_view, unsupported_type_message,
    FilePreprocessor, PreprocessingConfig,
};

verus! {

broadcast use vstd::string::group_string_axioms;

/// Maximum width or height of a profile image.
pub const MAX_DIMENSION: u32 = 512;

/// The configuration of the profile-image pipeline.
pub open spec fn profile_config_ok(c: PreprocessingConfig) -> bool {
    &&& c.max_dimension == 512
    &&& c.convert_to_webp
    &&& views(c.allowed_mime_types@) == default_image_types()
    &&& !c.encrypt_file
    &&& c.encryption_key_hex@ == Seq::<char>::empty()
    &&& c.env_encryption_key_hex@ == Seq::<char>::empty()
}

/// The preprocessor behind the profile-image pipeline.
pub fn profile_preprocessor() -> (p: LocalFilePreprocessor)
    ensures
        profile_config_ok(p.config),
{
    LocalFilePreprocessor::with_config(PreprocessingConfig {
        max_dimension: MAX_DIMENSION,
        convert_to_webp: true,
        allowed_mime_types: default_image_type_list(),
        encrypt_file: false,
        encryption_key_hex: String::new(),
        env_encryption_key_hex: String::new(),
    })
}

/// Validates that the MIME type is one of the four standard image types.
pub fn validate_mime_type(content_type: &str) -> (r: Result<(), AppError>)
    ensures
        r is Ok <==> default_image_types().contains(content_type@),
        r matches Err(e) ==> error_view(e) == (2int, unsupported_type_message(content_type@, default_image_types())),
{
    let pre = profile_preprocessor();
    super::file_preprocess::validate_mime_type(content_type, pre.config.allowed_mime_types.as_slice())
}

/// What the profile-image pipeline gives for a buffer and its type: the
/// WebP bytes of the image fitted into 512 px, or the error's variant and
/// message.
pub open spec fn profile_image_spec(buffer: Seq<u8>, content_type: Seq<char>) -> Result<Seq<u8>, (int, Seq<char>)> {
    match encoding_spec(default_image_types(), 512, true, buffer, content_type, "image"@) {
        Ok((b, _, _)) => Ok(b),
        Err(e) => Err(e),
    }
}

/// Processes an uploaded profile image (resize to 512 px, WebP conversion)
/// and returns the new bytes with their content type, "image/webp".
pub fn preprocess_profile_image(buffer: &[u8], content_type: &str) -> (r: Result<(Vec<u8>, String), AppError>)
    ensures
        match profile_image_spec(buffer@, content_type@) {
            Ok(b) => r matches Ok((v, t)) && v@ == b && t@ == "image/webp"@,
            Err(e) => r matches Err(x) && error_view(x) == e,
        },
{
    let pre = profile_preprocessor();
    let res = pre.preprocess(buffer, content_type, "image");
    proof {
        let c = pre.config;
        assert(local_outcome_ok(c, pre.key_spec(), buffer@, content_type@, "image"@, outcome_view(res)));
        assert(local_encoding(c, buffer@, content_type@, "image"@)
            == encoding_spec(default_image_types(), 512, true, buffer@, content_type@, "image"@));
    }
    match res {
        Ok(p) => Ok((p.buffer, p.content_type)),
        Err(e) => Err(e),
    }
}

} // verus!
