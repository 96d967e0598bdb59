//! The local file-system storage provider: files live under
//! `{base_path}/{storage_key}` and are served at `{serve_prefix}/{storage_key}`.
use vstd::prelude::*;

use crate::app_error::{error_view, AppError};
use crate::text::{append_range, chars_of, trim_end_char, trim_end_len};

use super::storage_types::StoreFileResult;
use super::storage_util::key_from_url_spec;

verus! {

broadcast use vstd::string::group_string_axioms;

/// `s` with every trailing '/' removed.
pub fn trim_trailing_slashes(s: &str) -> (r: String)
    ensures
        r@ == trim_end_char(s@, '/'),
{
    let v = chars_of(s);
    let n = trim_end_len(&v, '/');
    let mut r = String::new();
    append_range(&mut r, &v, 0, n);
    assert(v@.subrange(0, n as int) =~= v@.take(n as int));
    r
}

/// Local file-system storage provider.
pub struct LocalStorage {
    base_path: String,
    serve_prefix: String,
}

/// `{prefix}/{key}`.
pub open spec fn joined(prefix: Seq<char>, key: Seq<char>) -> Seq<char> {
    prefix + "/"@ + key
}

/// The message of the bad request that local storage answers to a presigned URL request.
pub open spec fn presigned_unsupported_message() -> Seq<char> {
    "Presigned URLs are not supported by the local filesystem storage provider. Use a cloud storage provider (AWS S3 or Cloudflare R2) or fall back to direct upload via `store_file()`."@
}

impl LocalStorage {
    /// The base path, without trailing '/'.
    pub closed spec fn base(&self) -> Seq<char> {
        self.base_path@
    }

    /// The URL prefix files are served under, without trailing '/'.
    pub closed spec fn prefix(&self) -> Seq<char> {
        self.serve_prefix@
    }

    /// A provider storing under `base_path` (e.g. "./uploads") and serving at
    /// `serve_prefix` (e.g. "/uploads"); trailing '/' are dropped from both.
    pub fn new(base_path: &str, serve_prefix: &str) -> (s: Self)
        ensures
            s.base() == trim_end_char(base_path@, '/'),
            s.prefix() == trim_end_char(serve_prefix@, '/'),
    {
        LocalStorage { base_path: trim_trailing_slashes(base_path), serve_prefix: trim_trailing_slashes(serve_prefix) }
    }

    /// The file-system path of a stored file.
    pub fn full_path(&self, key: &str) -> (r: String)
        ensures
            r@ == joined(self.base(), key@),
    {
        let mut r = self.base_path.clone();
        r.append("/");
        r.append(key);
        r
    }

    /// The public (relative) URL of a stored file.
    pub fn get_file_url(&self, key: &str) -> (r: String)
        ensures
            r@ == joined(self.prefix(), key@),
    {
        let mut r = self.serve_prefix.clone();
        r.append("/");
        r.append(key);
        r
    }

    /// The result of storing `size` bytes of `content_type` under `key`.
    pub fn store_result(&self, key: String, content_type: String, size: u64) -> (r: StoreFileResult)
        ensures
            r.key@ == key@,
            r.url@ == joined(self.prefix(), key@),
            r.content_type@ == content_type@,
            r.size == size,
    {
        let url = self.get_file_url(key.as_str());
        StoreFileResult { key, url, content_type, size }
    }

    /// Local storage cannot presign uploads: callers fall back to `store_file`.
    pub fn presigned_upload_error(&self) -> (e: AppError)
        ensures
            error_view(e) == (2int, presigned_unsupported_message()),
    {
        AppError::BadRequest(String::from_str(
            "Presigned URLs are not supported by the local filesystem storage provider. Use a cloud storage provider (AWS S3 or Cloudflare R2) or fall back to direct upload via `store_file()`.",
        ))
    }
}

/// The file-system step of local storage that failed.
#[derive(Debug, Clone, Copy)]
pub enum LocalIoStep {
    CreateDirectory,
    CreateFile,
    WriteFile,
    DeleteFile,
}

/// "Failed to create directory", "Failed to create file", "Failed to write
/// file" or "Failed to delete file".
pub open spec fn io_step_text(step: LocalIoStep) -> Seq<char> {
    match step {
        LocalIoStep::CreateDirectory => "Failed to create directory"@,
        LocalIoStep::CreateFile => "Failed to create file"@,
        LocalIoStep::WriteFile => "Failed to write file"@,
        LocalIoStep::DeleteFile => "Failed to delete file"@,
    }
}

/// The internal error for a failed file-system step, with the system's
/// description of the failure: "{step}: {detail}".
pub fn io_failure(step: LocalIoStep, detail: &str) -> (e: AppError)
    ensures
        error_view(e) == (5int, io_step_text(step) + ": "@ + detail@),
{
    let mut m = match step {
        LocalIoStep::CreateDirectory => String::from_str("Failed to create directory"),
        LocalIoStep::CreateFile => String::from_str("Failed to create file"),
        LocalIoStep::WriteFile => String::from_str("Failed to write file"),
        LocalIoStep::DeleteFile => String::from_str("Failed to delete file"),
    };
    m.append(": ");
    m.append(detail);
    AppError::Internal(m)
}

/// Recovering the key from `{prefix}/{key}`: when `prefix` has no trailing
/// '/', stripping it gives the key back.
pub proof fn lemma_key_from_joined_url(prefix: Seq<char>, key: Seq<char>)
    requires
        trim_end_char(prefix, '/') == prefix,
    ensures
        key_from_url_spec(joined(prefix, key), prefix) == key,
{
    reveal_strlit("/");
    let url = joined(prefix, key);
    assert(url.take(prefix.len() as int) =~= prefix);
    assert(url[prefix.len() as int] == '/');
    assert(url.skip(prefix.len() + 1int) =~= key);
}

/// Trimming trailing '/' twice is trimming once.
pub proof fn lemma_trim_end_idempotent(s: Seq<char>)
    ensures
        trim_end_char(trim_end_char(s, '/'), '/') == trim_end_char(s, '/'),
    decreases s.len(),
{
    if s.len() > 0 && s.last() == '/' {
        lemma_trim_end_idempotent(s.drop_last());
    }
}

/// A file stored in local storage is found again from its URL: the key
/// that `storage_key_from_url` recovers from the stored URL, with the serve
/// prefix the storage was built with, is the key it was stored under.
pub proof fn lemma_local_url_roundtrip(serve_prefix: Seq<char>, key: Seq<char>)
    ensures
        key_from_url_spec(joined(trim_end_char(serve_prefix, '/'), key), serve_prefix) == key,
{
    let p = trim_end_char(serve_prefix, '/');
    lemma_trim_end_idempotent(serve_prefix);
    lemma_key_from_joined_url(p, key);
    assert(key_from_url_spec(joined(p, key), serve_prefix) == key_from_url_spec(joined(p, key), p));
}

} // verus!
