//! The storage decisions that every upload endpoint shares: collecting the
//! fields of a multipart form, turning the uploaded file into a store request
//! (with or without preprocessing), recovering storage keys from URLs, and
//! which file survives an update.
use vstd::prelude::*;

use crate::app_error::{error_view, AppError};
use crate::named_values::NamedValues;
use crate::text::{chars_of, decimal, push_decimal, str_trim, trim_end_char, trim_end_len, trimmed, whitespace, append_range};

use super::file_preprocess::file_preprocess_local::{webp_file_name, webp_name_spec};
use super::file_preprocess::FilePreprocessor;
use super::image_preprocessing::{preprocess_profile_image, profile_image_spec, validate_mime_type};
use super::storage_types::{StoreFileInput, StoreFileResult};

verus! {

broadcast use vstd::string::group_string_axioms;

/// Maximum allowed upload size: 10 MB.
pub const MAX_FILE_SIZE: usize = 10485760;

/// The key that a storage URL `{serve_prefix}/{key}` stands for: the URL
/// without the prefix (trailing '/' of the prefix ignored) and the '/' after
/// it; a URL that does not start so is returned whole.
pub open spec fn key_from_url_spec(url: Seq<char>, serve_prefix: Seq<char>) -> Seq<char> {
    let p = trim_end_char(serve_prefix, '/');
    if url.len() > p.len() && url.take(p.len() as int) == p && url[p.len() as int] == '/' {
        url.skip(p.len() + 1int)
    } else {
        url
    }
}

/// Extracts a storage key from a full storage URL of the form
/// `{serve_prefix}/{storage_key}`; other URLs are returned as they are.
pub fn storage_key_from_url(url: &str, serve_prefix: &str) -> (r: String)
    ensures
        r@ == key_from_url_spec(url@, serve_prefix@),
{
    let u = chars_of(url);
    let sp = chars_of(serve_prefix);
    let n = trim_end_len(&sp, '/');
    if u.len() > n {
        let mut i: usize = 0;
        while i < n
            invariant
                n <= sp@.len(),
                n < u@.len(),
                sp@ == serve_prefix@,
                u@ == url@,
                trim_end_char(sp@, '/') == sp@.take(n as int),
                i <= n,
                forall|j: int| 0 <= j < i ==> u@[j] == sp@[j],
            decreases n - i,
        {
            if u[i] != sp[i] {
                assert(u@.take(n as int)[i as int] != sp@.take(n as int)[i as int]);
                assert(u@.take(n as int) != sp@.take(n as int));
                return String::from_str(url);
            }
            i += 1;
        }
        assert(u@.take(n as int) =~= sp@.take(n as int));
        if u[n] == '/' {
            let mut r = String::new();
            append_range(&mut r, &u, n + 1, u.len());
            assert(u@.subrange(n + 1, u@.len() as int) =~= u@.skip(n + 1));
            return r;
        }
    }
    String::from_str(url)
}

/// The file that an update persists, and the key of the file it replaces.
pub struct UrlUpdate {
    /// The URL to store in the record.
    pub url: String,
    /// The storage key of the old file, to delete (best-effort), if a new
    /// file was uploaded.
    pub delete_key: Option<String>,
}

/// Given the URL stored in a record and the result of storing a new file (if
/// one was uploaded), decides which URL the record keeps: the new file's,
/// with the old file marked for deletion, or else the old URL unchanged.
pub fn file_url_on_update(serve_prefix: &str, old_file_url: &str, new_store_result: Option<&StoreFileResult>) -> (r: UrlUpdate)
    ensures
        match new_store_result {
            Some(n) => r.url@ == n.url@ && (r.delete_key matches Some(k) && k@ == key_from_url_spec(old_file_url@, serve_prefix@)),
            None => r.url@ == old_file_url@ && r.delete_key is None,
        },
{
    match new_store_result {
        Some(result) => UrlUpdate {
            url: result.url.clone(),
            delete_key: Some(storage_key_from_url(old_file_url, serve_prefix)),
        },
        None => UrlUpdate { url: String::from_str(old_file_url), delete_key: None },
    }
}

/// An uploaded file as it came out of the form.
#[derive(Debug, Clone)]
pub struct RawFile {
    pub buffer: Vec<u8>,
    pub file_name: String,
    pub content_type: String,
}

/// The fields of a multipart form, collected one at a time: the first file
/// (later files are ignored) and the trimmed text fields.
pub struct MultipartCollector {
    raw_file: Option<RawFile>,
    text_fields: NamedValues,
}

/// The message of the bad request for an empty upload.
pub open spec fn empty_upload_message() -> Seq<char> {
    "Uploaded file is empty"@
}

/// The message of the bad request for an upload over 10 MB.
pub open spec fn oversize_message() -> Seq<char> {
    "File exceeds maximum size of "@ + decimal(10485760) + " bytes"@
}

/// The message of the bad request for a form without the required file.
pub open spec fn missing_file_message() -> Seq<char> {
    "No file found in upload"@
}

/// Where reading a multipart form failed.
#[derive(Debug, Clone, Copy)]
pub enum MultipartStage {
    /// Reading the next field of the stream.
    NextField,
    /// Reading the bytes of a file field.
    FileBytes,
    /// Reading the text of a named field.
    FieldText,
}

/// The message of the bad request for a failed read.
pub open spec fn read_error_message(stage: MultipartStage, field_name: Seq<char>, detail: Seq<char>) -> Seq<char> {
    match stage {
        MultipartStage::NextField => "Multipart error: "@ + detail,
        MultipartStage::FileBytes => "File read error: "@ + detail,
        MultipartStage::FieldText => "Invalid field '"@ + field_name + "': "@ + detail,
    }
}

/// The bad request for a failed read of the form.
pub fn multipart_read_error(stage: MultipartStage, field_name: &str, detail: &str) -> (e: AppError)
    ensures
        error_view(e) == (2int, read_error_message(stage, field_name@, detail@)),
{
    match stage {
        MultipartStage::NextField => {
            let mut m = String::from_str("Multipart error: ");
            m.append(detail);
            AppError::BadRequest(m)
        },
        MultipartStage::FileBytes => {
            let mut m = String::from_str("File read error: ");
            m.append(detail);
            AppError::BadRequest(m)
        },
        MultipartStage::FieldText => {
            let mut m = String::from_str("Invalid field '");
            m.append(field_name);
            m.append("': ");
            m.append(detail);
            AppError::BadRequest(m)
        },
    }
}

/// Whether a field is a file: it carries a non-empty file name.
pub fn is_file_field(file_name: Option<&str>) -> (r: bool)
    ensures
        r == (file_name matches Some(n) && n@.len() > 0),
{
    match file_name {
        Some(n) => chars_of(n).len() > 0,
        None => false,
    }
}

impl MultipartCollector {
    /// The file kept so far.
    pub closed spec fn file(&self) -> Option<RawFile> {
        self.raw_file
    }

    /// The text fields so far.
    pub closed spec fn fields(&self) -> Map<Seq<char>, Seq<char>> {
        self.text_fields@
    }

    /// Nothing collected yet.
    pub fn new() -> (c: Self)
        ensures
            c.file() is None,
            c.fields() == Map::<Seq<char>, Seq<char>>::empty(),
    {
        MultipartCollector { raw_file: None, text_fields: NamedValues::new() }
    }

    /// A file field arrived with its bytes.  Empty and oversized files are
    /// refused; only the first file is kept, later ones are ignored.  A
    /// missing content type is `application/octet-stream`.
    pub fn on_file(&mut self, file_name: String, content_type: Option<String>, data: Vec<u8>) -> (r: Result<(), AppError>)
        ensures
            final(self).fields() == old(self).fields(),
            data@.len() == 0 ==> (r matches Err(e) && error_view(e) == (2int, empty_upload_message())
                && final(self).file() == old(self).file()),
            data@.len() > 10485760 ==> (r matches Err(e) && error_view(e) == (2int, oversize_message())
                && final(self).file() == old(self).file()),
            0 < data@.len() <= 10485760 ==> r is Ok,
            r is Ok && old(self).file() is Some ==> final(self).file() == old(self).file(),
            r is Ok && old(self).file() is None ==> (final(self).file() matches Some(f) && f.buffer@ == data@
                && f.file_name@ == file_name@ && f.content_type@ == match content_type {
                    Some(t) => t@,
                    None => "application/octet-stream"@,
                }),
    {
        if data.len() == 0 {
            return Err(AppError::BadRequest(String::from_str("Uploaded file is empty")));
        }
        if data.len() > MAX_FILE_SIZE {
            let mut m = String::from_str("File exceeds maximum size of ");
            push_decimal(&mut m, MAX_FILE_SIZE as u64);
            m.append(" bytes");
            return Err(AppError::BadRequest(m));
        }
        if self.raw_file.is_none() {
            let ct = match content_type {
                Some(t) => t,
                None => String::from_str("application/octet-stream"),
            };
            self.raw_file = Some(RawFile { buffer: data, file_name, content_type: ct });
        }
        Ok(())
    }

    /// A text field arrived: it is stored trimmed, replacing an earlier value.
    pub fn on_text(&mut self, name: String, text: &str)
        ensures
            final(self).file() == old(self).file(),
            exists|v: Seq<char>| trimmed(text@, v, whitespace()) && final(self).fields() == old(self).fields().insert(name@, v),
    {
        let t = str_trim(text);
        assert(trimmed(text@, t@, whitespace()));
        self.text_fields.insert(name, String::from_str(t));
    }

    /// The form is complete: the kept file and the text fields.  When a file
    /// is required and none came, the form is a bad request.
    pub fn finish(self, accept_file: bool) -> (r: Result<(Option<RawFile>, NamedValues), AppError>)
        ensures
            accept_file && self.file() is None ==> (r matches Err(e) && error_view(e) == (2int, missing_file_message())),
            !(accept_file && self.file() is None) ==> (r matches Ok((f, t)) && f == self.file() && t@ == self.fields()),
    {
        if accept_file && self.raw_file.is_none() {
            return Err(AppError::BadRequest(String::from_str("No file found in upload")));
        }
        Ok((self.raw_file, self.text_fields))
    }
}

/// The file of a form that must carry one: a bad request when there is none.
pub fn required_file(file: Option<RawFile>) -> (r: Result<RawFile, AppError>)
    ensures
        match file {
            Some(f) => r == Ok::<RawFile, AppError>(f),
            None => r matches Err(e) && error_view(e) == (2int, missing_file_message()),
        },
{
    match file {
        Some(f) => Ok(f),
        None => Err(AppError::BadRequest(String::from_str("No file found in upload"))),
    }
}

/// Generic result of a multipart upload.
pub struct UploadResult {
    pub store_result: StoreFileResult,
    pub text_fields: NamedValues,
}

/// Result of an optional upload: `store_result` is `None` when no file came.
pub struct OptionalUploadResult {
    pub store_result: Option<StoreFileResult>,
    pub text_fields: NamedValues,
}

/// The store request for an uploaded file, unchanged.
pub fn store_input_plain(file: RawFile, directory: &str) -> (r: StoreFileInput)
    ensures
        r.buffer@ == file.buffer@,
        r.file_name@ == file.file_name@,
        r.content_type@ == file.content_type@,
        r.directory@ == directory@,
{
    StoreFileInput {
        buffer: file.buffer,
        file_name: file.file_name,
        content_type: file.content_type,
        directory: String::from_str(directory),
    }
}

/// The store request for an uploaded profile image: its type must be one of
/// the standard image types; it is resized and converted to WebP, and its
/// name gets the ".webp" extension.
pub fn store_input_profile_image(file: RawFile, directory: &str) -> (r: Result<StoreFileInput, AppError>)
    ensures
        match profile_image_spec(file.buffer@, file.content_type@) {
            Ok(b) => r matches Ok(i) && {
                &&& i.buffer@ == b
                &&& i.content_type@ == "image/webp"@
                &&& i.file_name@ == webp_name_spec(file.file_name@)
                &&& i.directory@ == directory@
            },
            Err(e) => r matches Err(x) && error_view(x) == e,
        },
{
    if let Err(e) = validate_mime_type(file.content_type.as_str()) {
        return Err(e);
    }
    let (buffer, content_type) = match preprocess_profile_image(file.buffer.as_slice(), file.content_type.as_str()) {
        Ok(p) => p,
        Err(e) => return Err(e),
    };
    Ok(StoreFileInput {
        buffer,
        file_name: webp_file_name(file.file_name.as_str()),
        content_type,
        directory: String::from_str(directory),
    })
}

/// The store request for an uploaded file after a preprocessor's work: the
/// preprocessor's buffer, name and content type, or its error.
pub fn store_input_with_preprocessor<P: FilePreprocessor>(preprocessor: &P, file: RawFile, directory: &str) -> (r: Result<StoreFileInput, AppError>)
    ensures
        r matches Ok(i) ==> i.directory@ == directory@,
        r matches Ok(i) ==> preprocessor.outcome_spec(
            file.buffer@,
            file.content_type@,
            file.file_name@,
            Ok((i.buffer@, i.content_type@, i.file_name@, true)),
        ) || preprocessor.outcome_spec(
            file.buffer@,
            file.content_type@,
            file.file_name@,
            Ok((i.buffer@, i.content_type@, i.file_name@, false)),
        ),
        r matches Err(e) ==> preprocessor.outcome_spec(file.buffer@, file.content_type@, file.file_name@, Err(error_view(e))),
{
    let res = preprocessor.preprocess(file.buffer.as_slice(), file.content_type.as_str(), file.file_name.as_str());
    match res {
        Ok(p) => {
            let out = StoreFileInput {
                buffer: p.buffer,
                file_name: p.file_name,
                content_type: p.content_type,
                directory: String::from_str(directory),
            };
            assert(preprocessor.outcome_spec(
                file.buffer@,
                file.content_type@,
                file.file_name@,
                Ok((out.buffer@, out.content_type@, out.file_name@, p.is_encrypted)),
            ));
            Ok(out)
        },
        Err(e) => Err(e),
    }
}

} // verus!
