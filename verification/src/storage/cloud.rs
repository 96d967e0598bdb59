//! Keys and URLs of the S3-compatible providers (AWS S3 and Cloudflare R2).
//! The transfers themselves go through the AWS SDK in the application.
use vstd::prelude::*;

use crate::app_error::{error_view, AppError};
use crate::text::{chars_of, str_eq, trim_end_char};

use super::localstorage::{joined, lemma_key_from_joined_url, trim_trailing_slashes};
use super::storage_types::StoreFileResult;
use super::storage_util::key_from_url_spec;

verus! {

broadcast use vstd::string::group_string_axioms;

/// `https://{bucket}.s3.{region}.amazonaws.com`.
pub open spec fn s3_base_spec(bucket: Seq<char>, region: Seq<char>) -> Seq<char> {
    "https://"@ + bucket + ".s3."@ + region + ".amazonaws.com"@
}

/// The public base URL of an S3 bucket (also the serve prefix of its files).
pub fn s3_public_base(bucket: &str, region: &str) -> (r: String)
    ensures
        r@ == s3_base_spec(bucket@, region@),
{
    let mut r = String::from_str("https://");
    r.append(bucket);
    r.append(".s3.");
    r.append(region);
    r.append(".amazonaws.com");
    r
}

/// The standard S3 URL of an object: `https://{bucket}.s3.{region}.amazonaws.com/{key}`.
pub fn s3_object_url(bucket: &str, region: &str, key: &str) -> (r: String)
    ensures
        r@ == joined(s3_base_spec(bucket@, region@), key@),
{
    let mut r = s3_public_base(bucket, region);
    r.append("/");
    r.append(key);
    r
}

/// An S3 object's key is found again from its URL with the bucket's public base as serve prefix.
pub proof fn lemma_s3_url_roundtrip(bucket: Seq<char>, region: Seq<char>, key: Seq<char>)
    ensures
        key_from_url_spec(joined(s3_base_spec(bucket, region), key), s3_base_spec(bucket, region)) == key,
{
    reveal_strlit(".amazonaws.com");
    let b = s3_base_spec(bucket, region);
    assert(b.last() == 'm');
    assert(trim_end_char(b, '/') == b);
    lemma_key_from_joined_url(b, key);
}

/// Where a Cloudflare R2 provider puts and serves files.
pub struct R2Layout {
    key_prefix: String,
    public_url_base: String,
    endpoint: String,
}

/// The full object key: `{key_prefix}/{raw_key}`, or the raw key without a prefix.
pub open spec fn r2_full_key_spec(key_prefix: Seq<char>, raw_key: Seq<char>) -> Seq<char> {
    if key_prefix.len() == 0 {
        raw_key
    } else {
        joined(key_prefix, raw_key)
    }
}

/// The URL a file stored under `raw_key` is served at: below the public URL
/// when there is one (raw key), else below the endpoint (full key).
pub open spec fn r2_url_spec(layout_prefix: Seq<char>, public_base: Seq<char>, endpoint: Seq<char>, raw_key: Seq<char>) -> Seq<char> {
    if public_base.len() == 0 {
        joined(endpoint, r2_full_key_spec(layout_prefix, raw_key))
    } else {
        joined(public_base, raw_key)
    }
}

impl R2Layout {
    pub closed spec fn prefix(&self) -> Seq<char> {
        self.key_prefix@
    }

    pub closed spec fn public_base(&self) -> Seq<char> {
        self.public_url_base@
    }

    pub closed spec fn endpoint_url(&self) -> Seq<char> {
        self.endpoint@
    }

    /// The layout for a key prefix, public base URL and endpoint; trailing
    /// '/' are dropped from all three.
    pub fn new(key_prefix: &str, public_url_base: &str, endpoint: &str) -> (l: Self)
        ensures
            l.prefix() == trim_end_char(key_prefix@, '/'),
            l.public_base() == trim_end_char(public_url_base@, '/'),
            l.endpoint_url() == trim_end_char(endpoint@, '/'),
    {
        R2Layout {
            key_prefix: trim_trailing_slashes(key_prefix),
            public_url_base: trim_trailing_slashes(public_url_base),
            endpoint: trim_trailing_slashes(endpoint),
        }
    }

    /// The object key for a raw storage key.
    pub fn build_full_key(&self, raw_key: &str) -> (r: String)
        ensures
            r@ == r2_full_key_spec(self.prefix(), raw_key@),
    {
        if chars_of(self.key_prefix.as_str()).len() == 0 {
            String::from_str(raw_key)
        } else {
            let mut r = self.key_prefix.clone();
            r.append("/");
            r.append(raw_key);
            r
        }
    }

    /// The URL a file stored under `raw_key` is served at.
    pub fn get_file_url(&self, raw_key: &str) -> (r: String)
        ensures
            r@ == r2_url_spec(self.prefix(), self.public_base(), self.endpoint_url(), raw_key@),
    {
        if chars_of(self.public_url_base.as_str()).len() == 0 {
            let full = self.build_full_key(raw_key);
            let mut r = self.endpoint.clone();
            r.append("/");
            r.append(full.as_str());
            r
        } else {
            let mut r = self.public_url_base.clone();
            r.append("/");
            r.append(raw_key);
            r
        }
    }

    /// The result of storing `size` bytes of `content_type` under `raw_key`
    /// (the result carries the raw key; the prefix is the layout's business).
    pub fn store_result(&self, raw_key: String, content_type: String, size: u64) -> (r: StoreFileResult)
        ensures
            r.key@ == raw_key@,
            r.url@ == r2_url_spec(self.prefix(), self.public_base(), self.endpoint_url(), raw_key@),
            r.content_type@ == content_type@,
            r.size == size,
    {
        let url = self.get_file_url(raw_key.as_str());
        StoreFileResult { key: raw_key, url, content_type, size }
    }
}

/// The URL of an object in an S3 bucket.
pub open spec fn s3_url_spec(bucket: Seq<char>, region: Seq<char>, key: Seq<char>) -> Seq<char> {
    joined(s3_base_spec(bucket, region), key)
}

/// Where objects of an S3 bucket are served: its bucket and region.
pub struct S3Layout {
    bucket: String,
    region: String,
}

impl S3Layout {
    /// The bucket name.
    pub closed spec fn bucket_name(&self) -> Seq<char> {
        self.bucket@
    }

    /// The region.
    pub closed spec fn region_name(&self) -> Seq<char> {
        self.region@
    }

    /// The layout of a bucket in a region.
    pub fn new(bucket: &str, region: &str) -> (l: Self)
        ensures
            l.bucket_name() == bucket@,
            l.region_name() == region@,
    {
        S3Layout { bucket: String::from_str(bucket), region: String::from_str(region) }
    }

    /// The bucket name, as given.
    pub fn bucket(&self) -> (r: &str)
        ensures
            r@ == self.bucket_name(),
    {
        self.bucket.as_str()
    }

    /// The public URL of an object.
    pub fn get_file_url(&self, key: &str) -> (r: String)
        ensures
            r@ == s3_url_spec(self.bucket_name(), self.region_name(), key@),
    {
        s3_object_url(self.bucket.as_str(), self.region.as_str(), key)
    }

    /// The result of storing `size` bytes of `content_type` under `key`.
    pub fn store_result(&self, key: String, content_type: String, size: u64) -> (r: StoreFileResult)
        ensures
            r.key@ == key@,
            r.url@ == s3_url_spec(self.bucket_name(), self.region_name(), key@),
            r.content_type@ == content_type@,
            r.size == size,
    {
        let url = self.get_file_url(key.as_str());
        StoreFileResult { key, url, content_type, size }
    }
}

/// The object store behind a provider, as its error messages name it.
#[derive(Clone, Copy, Debug, PartialEq, Eq, Structural)]
pub enum CloudProvider {
    S3,
    R2,
}

/// "S3" or "R2".
pub open spec fn provider_label(p: CloudProvider) -> Seq<char> {
    match p {
        CloudProvider::S3 => "S3"@,
        CloudProvider::R2 => "R2"@,
    }
}

fn label_text(p: CloudProvider) -> (s: String)
    ensures
        s@ == provider_label(p),
{
    match p {
        CloudProvider::S3 => String::from_str("S3"),
        CloudProvider::R2 => String::from_str("R2"),
    }
}

/// The error for a failed store, delete or existence check:
/// internal, "{provider} storage error: {detail}".
pub fn storage_error(p: CloudProvider, detail: &str) -> (e: AppError)
    ensures
        error_view(e) == (5int, provider_label(p) + " storage error: "@ + detail@),
{
    let mut m = label_text(p);
    m.append(" storage error: ");
    m.append(detail);
    AppError::Internal(m)
}

/// The error for a failed presigning: internal,
/// "{provider} presigned URL error: {detail}".
pub fn presigned_error(p: CloudProvider, detail: &str) -> (e: AppError)
    ensures
        error_view(e) == (5int, provider_label(p) + " presigned URL error: "@ + detail@),
{
    let mut m = label_text(p);
    m.append(" presigned URL error: ");
    m.append(detail);
    AppError::Internal(m)
}

/// The error for a presigning configuration that could not be built:
/// internal, "Presigning config error: {detail}".
pub fn presigning_config_error(detail: &str) -> (e: AppError)
    ensures
        error_view(e) == (5int, "Presigning config error: "@ + detail@),
{
    let mut m = String::from_str("Presigning config error: ");
    m.append(detail);
    AppError::Internal(m)
}

/// A failed `HEAD` on an object: whether the service calls it a missing
/// object, the error code it gave, and its message.
pub struct HeadFailure {
    pub not_found: bool,
    pub code: Option<String>,
    pub message: String,
}

/// Whether a failed `HEAD` means the object is absent: the service says
/// so, or its error code is "NotFound".
pub open spec fn head_means_absent(f: HeadFailure) -> bool {
    f.not_found || (f.code matches Some(c) && c@ == "NotFound"@)
}

/// Whether an object exists, from the answer to a `HEAD` on it: yes on
/// success, no when the failure means it is absent, else the storage error.
pub fn file_exists_answer(p: CloudProvider, head: Result<(), HeadFailure>) -> (r: Result<bool, AppError>)
    ensures
        match head {
            Ok(()) => r == Ok::<bool, AppError>(true),
            Err(f) => if head_means_absent(f) {
                r == Ok::<bool, AppError>(false)
            } else {
                r matches Err(e) && error_view(e) == (5int, provider_label(p) + " storage error: "@ + f.message@)
            },
        },
{
    match head {
        Ok(()) => Ok(true),
        Err(f) => {
            let coded = match &f.code {
                Some(c) => str_eq(c.as_str(), "NotFound"),
                None => false,
            };
            if f.not_found || coded {
                Ok(false)
            } else {
                Err(storage_error(p, f.message.as_str()))
            }
        },
    }
}

} // verus!
