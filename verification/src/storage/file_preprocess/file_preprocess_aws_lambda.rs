//! Preprocessor for AWS deployments (EC2, ECS, EKS, Lambda).  These run a
//! native binary with the full `image` crate, so it delegates to the local
//! preprocessor.
use vstd::prelude::*;

use crate::app_error::AppError;
use crate::text::views;

use super::file_preprocess_local::{local_outcome_ok, LocalFilePreprocessor};
use super::{resolve_key_spec, FilePreprocessor, PreprocessingConfig, PreprocessingResult};

verus! {

/// AWS file preprocessor, delegating to [`LocalFilePreprocessor`].
pub struct AwsLambdaFilePreprocessor {
    inner: LocalFilePreprocessor,
}

impl AwsLambdaFilePreprocessor {
    /// The configuration of the preprocessor it delegates to.
    pub closed spec fn configuration(&self) -> PreprocessingConfig {
        self.inner.config
    }

    /// A preprocessor with the default configuration.
    pub fn new() -> (p: Self)
        ensures
            p.configuration().max_dimension == 512,
            p.configuration().convert_to_webp,
            views(p.configuration().allowed_mime_types@) == super::default_image_types(),
            !p.configuration().encrypt_file,
            p.configuration().encryption_key_hex@ == Seq::<char>::empty(),
            p.configuration().env_encryption_key_hex@ == Seq::<char>::empty(),
    {
        AwsLambdaFilePreprocessor { inner: LocalFilePreprocessor::new() }
    }

    /// A preprocessor with a custom configuration.
    pub fn with_config(config: PreprocessingConfig) -> (p: Self)
        ensures
            p.configuration() == config,
    {
        AwsLambdaFilePreprocessor { inner: LocalFilePreprocessor::with_config(config) }
    }
}

impl Default for AwsLambdaFilePreprocessor {
    fn default() -> (p: Self)
        ensures
            views(p.configuration().allowed_mime_types@) == super::default_image_types(),
            !p.configuration().encrypt_file,
    {
        Self::new()
    }
}

impl FilePreprocessor for AwsLambdaFilePreprocessor {
    open spec fn key_spec(&self) -> Result<Seq<u8>, Seq<char>> {
        resolve_key_spec(self.configuration().encryption_key_hex@, self.configuration().env_encryption_key_hex@)
    }

    open spec fn outcome_spec(
        &self,
        buffer: Seq<u8>,
        content_type: Seq<char>,
        file_name: Seq<char>,
        out: Result<(Seq<u8>, Seq<char>, Seq<char>, bool), (int, Seq<char>)>,
    ) -> bool {
        local_outcome_ok(self.configuration(), self.key_spec(), buffer, content_type, file_name, out)
    }

    /// Delegates to the local preprocessor: identical logic.
    fn preprocess(&self, buffer: &[u8], content_type: &str, file_name: &str) -> (r: Result<PreprocessingResult, AppError>)
    {
        self.inner.preprocess(buffer, content_type, file_name)
    }

    fn resolve_encryption_key(&self) -> (r: Result<[u8; 32], AppError>) {
        self.inner.resolve_encryption_key()
    }
}

} // verus!
