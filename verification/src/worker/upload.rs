//! The decisions of the Worker's request handling: routing, collecting the
//! multipart form, validating the upload, and planning what is written to
//! the bucket and answered.  Reading the request and talking to R2 happen
//! around these functions.
use vstd::prelude::*;

use crate::storage::localstorage::trim_trailing_slashes;
use crate::text::{chars_of, push_char, str_eq, trim_end_char};

use super::encryption::{
    aes_gcm_p_max, encrypt_file, load_encryption_key, nonce_failure, worker_decrypt_spec, worker_key_spec,
    worker_seal_failure,
};

verus! {

broadcast use vstd::string::group_string_axioms;

/// Maximum upload size: 10 MB.
pub const MAX_FILE_SIZE: usize = 10 * 1024 * 1024;

/// The HTTP methods the Worker tells apart.
#[derive(Clone, Copy, Debug, PartialEq, Eq, Structural)]
pub enum WorkerMethod {
    Options,
    Get,
    Post,
    Delete,
    Other,
}

/// Where a request goes.
#[derive(Clone, Debug)]
pub enum WorkerRoute {
    /// CORS preflight: an empty answer.
    Preflight,
    /// `GET /`: the health check.
    Health,
    /// `POST /upload`.
    Upload,
    /// `DELETE /{key}`, with the key.
    Delete(String),
    /// Anything else: 404.
    NotFound,
}

/// `s` without every leading occurrence of `c` (`str::trim_start_matches` with a character).
pub open spec fn trim_start_char(s: Seq<char>, c: char) -> Seq<char>
    decreases s.len(),
{
    if s.len() > 0 && s[0] == c {
        trim_start_char(s.drop_first(), c)
    } else {
        s
    }
}

/// The route of a request, from its method and path.
pub open spec fn route_spec(method: WorkerMethod, path: Seq<char>) -> Option<Seq<char>> {
    // `Some(key)` for a delete; the other routes are told apart by `route_request`.
    if method == WorkerMethod::Delete && path.len() > 0 && path[0] == '/' {
        Some(trim_start_char(path, '/'))
    } else {
        None
    }
}

/// `s` without its leading `c`s.
fn trim_start_chars(s: &str, c: char) -> (r: String)
    ensures
        r@ == trim_start_char(s@, c),
{
    let v = chars_of(s);
    let mut i: usize = 0;
    assert(v@.skip(0) =~= v@);
    while i < v.len() && v[i] == c
        invariant
            i <= v@.len(),
            trim_start_char(v@, c) == trim_start_char(v@.skip(i as int), c),
        decreases v@.len() - i,
    {
        assert(v@.skip(i as int).drop_first() =~= v@.skip(i + 1));
        i += 1;
    }
    let mut r = String::new();
    let mut j = i;
    while j < v.len()
        invariant
            i <= j <= v@.len(),
            r@ == v@.subrange(i as int, j as int),
        decreases v@.len() - j,
    {
        push_char(&mut r, v[j]);
        j += 1;
        assert(r@ =~= v@.subrange(i as int, j as int));
    }
    assert(v@.subrange(i as int, v@.len() as int) =~= v@.skip(i as int));
    r
}

/// Routes a request: preflight for OPTIONS, the health check for `GET /`,
/// the upload for `POST /upload`, a delete for DELETE on a path starting
/// with '/', and 404 for anything else.
pub fn route_request(method: WorkerMethod, path: &str) -> (r: WorkerRoute)
    ensures
        method == WorkerMethod::Options ==> r is Preflight,
        method == WorkerMethod::Get && path@ == "/"@ ==> r is Health,
        method == WorkerMethod::Post && path@ == "/upload"@ ==> r is Upload,
        method == WorkerMethod::Delete ==> match route_spec(method, path@) {
            Some(k) => r matches WorkerRoute::Delete(key) && key@ == k,
            None => r is NotFound,
        },
        !(method == WorkerMethod::Options) && !(method == WorkerMethod::Get && path@ == "/"@)
            && !(method == WorkerMethod::Post && path@ == "/upload"@) && !(method == WorkerMethod::Delete)
            ==> r is NotFound,
{
    match method {
        WorkerMethod::Options => WorkerRoute::Preflight,
        WorkerMethod::Get => {
            if str_eq(path, "/") {
                WorkerRoute::Health
            } else {
                WorkerRoute::NotFound
            }
        },
        WorkerMethod::Post => {
            if str_eq(path, "/upload") {
                WorkerRoute::Upload
            } else {
                WorkerRoute::NotFound
            }
        },
        WorkerMethod::Delete => {
            let v = chars_of(path);
            if v.len() > 0 && v[0] == '/' {
                WorkerRoute::Delete(trim_start_chars(path, '/'))
            } else {
                WorkerRoute::NotFound
            }
        },
        WorkerMethod::Other => WorkerRoute::NotFound,
    }
}

/// A file part of the upload form.
#[derive(Debug)]
pub struct WorkerFile {
    pub bytes: Vec<u8>,
    /// The form field's name, which the Worker takes as the file name.
    pub file_name: String,
    pub content_type: String,
}

/// What the Worker keeps of the multipart form: the last file part and the
/// target directory ("uploads" unless a non-empty `directory` field names another).
#[derive(Debug)]
pub struct WorkerUploadForm {
    pub file: Option<WorkerFile>,
    pub directory: String,
}

/// The content type of a file part that names none.
pub open spec fn default_content_type() -> Seq<char> {
    "application/octet-stream"@
}

impl WorkerUploadForm {
    /// An empty form: no file, directory "uploads".
    pub fn new() -> (f: Self)
        ensures
            f.file is None,
            f.directory@ == "uploads"@,
    {
        WorkerUploadForm { file: None, directory: String::from_str("uploads") }
    }

    /// A file part: it replaces any earlier one.
    pub fn add_file(&mut self, name: String, bytes: Vec<u8>, content_type: Option<String>)
        ensures
            final(self).directory@ == old(self).directory@,
            final(self).file matches Some(f) && {
                &&& f.bytes@ == bytes@
                &&& f.file_name@ == name@
                &&& f.content_type@ == match content_type {
                    Some(c) => c@,
                    None => default_content_type(),
                }
            },
    {
        let ct = match content_type {
            Some(c) => c,
            None => String::from_str("application/octet-stream"),
        };
        self.file = Some(WorkerFile { bytes, file_name: name, content_type: ct });
    }

    /// A text field: a non-empty `directory` sets the target directory; any
    /// other field is ignored.
    pub fn add_field(&mut self, name: &str, value: String)
        ensures
            final(self).file == old(self).file,
            final(self).directory@ == if name@ == "directory"@ && value@.len() > 0 {
                value@
            } else {
                old(self).directory@
            },
    {
        if str_eq(name, "directory") && value.as_str().unicode_len() > 0 {
            self.directory = value;
        }
    }
}

/// A request the Worker answers with an error: the status and the message.
#[derive(Debug)]
pub struct WorkerRejection {
    pub status: u16,
    pub message: String,
}

/// The MIME types the Worker accepts.
pub open spec fn worker_mime_allowed(ct: Seq<char>) -> bool {
    ct == "image/jpeg"@ || ct == "image/png"@ || ct == "image/webp"@ || ct == "image/gif"@
}

/// The message for a content type outside the accepted ones.
pub open spec fn worker_unsupported_message(ct: Seq<char>) -> Seq<char> {
    "Unsupported file type '"@ + ct + "'. Allowed: image/jpeg, image/png, image/webp, image/gif"@
}

/// The 400 answer for a form, or `None` when its file passes: a file must
/// be present, non-empty, at most 10 MB and of an accepted image type.
pub open spec fn upload_rejection(file: Option<(Seq<u8>, Seq<char>)>) -> Option<Seq<char>> {
    match file {
        None => Some("No file found in upload"@),
        Some((bytes, ct)) => if bytes.len() == 0 {
            Some("Uploaded file is empty"@)
        } else if bytes.len() > MAX_FILE_SIZE {
            Some("File exceeds max size of 10485760 bytes"@)
        } else if !worker_mime_allowed(ct) {
            Some(worker_unsupported_message(ct))
        } else {
            None
        },
    }
}

/// The bytes and content type of the form's file, if any.
pub open spec fn form_file_view(form: &WorkerUploadForm) -> Option<(Seq<u8>, Seq<char>)> {
    match form.file {
        Some(f) => Some((f.bytes@, f.content_type@)),
        None => None,
    }
}

/// A missing file, an empty one and one over 10 MB (10485760 bytes) are
/// refused whatever their type.
pub proof fn lemma_worker_refuses_missing_empty_and_large(bytes: Seq<u8>, ct: Seq<char>)
    ensures
        upload_rejection(None) == Some("No file found in upload"@),
        bytes.len() == 0 ==> upload_rejection(Some((bytes, ct))) == Some("Uploaded file is empty"@),
        bytes.len() > 10485760 ==> upload_rejection(Some((bytes, ct)))
            == Some("File exceeds max size of 10485760 bytes"@),
{
}

/// A present, non-empty file of at most 10 MB passes exactly when its
/// content type is one of the four types the rejection message lists:
/// image/jpeg, image/png, image/webp and image/gif.
pub proof fn lemma_worker_accepts_listed_types(bytes: Seq<u8>, ct: Seq<char>)
    requires
        0 < bytes.len() <= 10485760,
    ensures
        upload_rejection(Some((bytes, ct))) is None <==> (ct == "image/jpeg"@ || ct == "image/png"@
            || ct == "image/webp"@ || ct == "image/gif"@),
        upload_rejection(Some((bytes, ct))) is Some ==> upload_rejection(Some((bytes, ct)))
            == Some("Unsupported file type '"@ + ct + "'. Allowed: image/jpeg, image/png, image/webp, image/gif"@),
{
}

fn reject(message: String) -> (r: WorkerRejection)
    ensures
        r.status == 400,
        r.message@ == message@,
{
    WorkerRejection { status: 400, message }
}

/// Checks the form's file; returns it, or the 400 answer.
pub fn validate_upload(form: WorkerUploadForm) -> (r: Result<WorkerFile, WorkerRejection>)
    ensures
        match upload_rejection(form_file_view(&form)) {
            None => r matches Ok(f) && form.file == Some(f),
            Some(m) => r matches Err(e) && e.status == 400 && e.message@ == m,
        },
{
    let file = match form.file {
        Some(f) => f,
        None => return Err(reject(String::from_str("No file found in upload"))),
    };
    if file.bytes.len() == 0 {
        return Err(reject(String::from_str("Uploaded file is empty")));
    }
    if file.bytes.len() > MAX_FILE_SIZE {
        return Err(reject(String::from_str("File exceeds max size of 10485760 bytes")));
    }
    let ct = file.content_type.as_str();
    let allowed = str_eq(ct, "image/jpeg") || str_eq(ct, "image/png") || str_eq(ct, "image/webp")
        || str_eq(ct, "image/gif");
    if !allowed {
        let mut m = String::from_str("Unsupported file type '");
        m.append(ct);
        m.append("'. Allowed: image/jpeg, image/png, image/webp, image/gif");
        return Err(reject(m));
    }
    Ok(file)
}

/// What the Worker writes to R2 and answers for an accepted upload.
#[derive(Debug)]
pub struct WorkerStorePlan {
    /// The object key: `{directory without trailing '/'}/{id}`.
    pub key: String,
    /// The public URL: `{base without trailing '/'}/{key}`.
    pub url: String,
    /// The stored bytes: the upload, or its encryption.
    pub body: Vec<u8>,
    /// The stored object's content type.
    pub store_content_type: String,
    /// The `x-encrypted` metadata.
    pub is_encrypted: bool,
    /// The size of the upload as received.
    pub size: u64,
    /// The upload's own content type, as answered.
    pub content_type: String,
}

/// `{directory without trailing '/'}/{id}`.
pub open spec fn worker_object_key(directory: Seq<char>, id: Seq<char>) -> Seq<char> {
    trim_end_char(directory, '/') + "/"@ + id
}

/// `{base without trailing '/'}/{key}`.
pub open spec fn worker_public_url(base: Seq<char>, key: Seq<char>) -> Seq<char> {
    trim_end_char(base, '/') + "/"@ + key
}

fn slash_join(a: &str, b: &str) -> (r: String)
    ensures
        r@ == trim_end_char(a@, '/') + "/"@ + b@,
{
    let mut r = trim_trailing_slashes(a);
    r.append("/");
    r.append(b);
    r
}

/// Plans the store of an accepted upload.  When `env_key_hex` (the value of
/// `FILE_ENCRYPTION_KEY`) holds a valid key, the body is the upload
/// encrypted under it and stored as "application/octet-stream"; that fails
/// (answered with 500) only when the random source fails or the upload is
/// over 2^36 bytes.  Otherwise the upload is stored as received.  `id` names the object inside the directory.
pub fn plan_upload(
    file: WorkerFile,
    directory: &str,
    env_key_hex: Option<&str>,
    id: &str,
    public_url_base: &str,
) -> (r: Result<WorkerStorePlan, WorkerRejection>)
    ensures
        r matches Ok(p) ==> {
            &&& p.key@ == worker_object_key(directory@, id@)
            &&& p.url@ == worker_public_url(public_url_base@, p.key@)
            &&& p.size == file.bytes@.len()
            &&& p.content_type@ == file.content_type@
            &&& match worker_key_spec(match env_key_hex { Some(h) => Some(h@), None => None }) {
                Ok(key) => {
                    &&& p.is_encrypted
                    &&& p.store_content_type@ == "application/octet-stream"@
                    &&& p.body@.len() == file.bytes@.len() + 28
                    &&& worker_decrypt_spec(key, p.body@) == Ok::<Seq<u8>, Seq<char>>(file.bytes@)
                },
                Err(_) => {
                    &&& !p.is_encrypted
                    &&& p.store_content_type@ == file.content_type@
                    &&& p.body@ == file.bytes@
                },
            }
        },
        r matches Err(e) ==> {
            &&& worker_key_spec(match env_key_hex { Some(h) => Some(h@), None => None }) is Ok
            &&& e.status == 500
            &&& (nonce_failure(e.message@) || (file.bytes@.len() > aes_gcm_p_max() && e.message@ == worker_seal_failure()))
        },
        worker_key_spec(match env_key_hex { Some(h) => Some(h@), None => None }) is Err ==> r is Ok,
{
    let size = file.bytes.len() as u64;
    let (body, store_content_type, is_encrypted) = match load_encryption_key(env_key_hex) {
        Ok(enc_key) => match encrypt_file(file.bytes.as_slice(), &enc_key) {
            Ok(c) => (c, String::from_str("application/octet-stream"), true),
            Err(m) => return Err(WorkerRejection { status: 500, message: m }),
        },
        Err(_) => (file.bytes, file.content_type.clone(), false),
    };
    let key = slash_join(directory, id);
    let url = slash_join(public_url_base, key.as_str());
    Ok(WorkerStorePlan {
        key,
        url,
        body,
        store_content_type,
        is_encrypted,
        size,
        content_type: file.content_type,
    })
}

/// The public base URL placeholder of an R2 bucket, used when
/// `PUBLIC_URL_BASE` is not set.
pub open spec fn default_public_url_base() -> Seq<char> {
    "https://pub-<your-id>.r2.dev"@
}

/// The public base URL of stored files: the value of `PUBLIC_URL_BASE`
/// (`None` when unset), or the placeholder.
pub fn public_url_base(env_value: Option<&str>) -> (r: String)
    ensures
        r@ == match env_value {
            Some(v) => v@,
            None => default_public_url_base(),
        },
{
    match env_value {
        Some(v) => String::from_str(v),
        None => String::from_str("https://pub-<your-id>.r2.dev"),
    }
}

/// The `x-encrypted` metadata value stored with an object.
pub fn encryption_marker(is_encrypted: bool) -> (r: &'static str)
    ensures
        r@ == if is_encrypted { "true"@ } else { "false"@ },
{
    if is_encrypted {
        "true"
    } else {
        "false"
    }
}

/// The CORS headers of every answer: any origin, the four methods, and the
/// `Content-Type` request header.
pub fn cors_headers() -> (h: Vec<(String, String)>)
    ensures
        h@.len() == 3,
        h@[0].0@ == "Access-Control-Allow-Origin"@ && h@[0].1@ == "*"@,
        h@[1].0@ == "Access-Control-Allow-Methods"@ && h@[1].1@ == "GET, POST, DELETE, OPTIONS"@,
        h@[2].0@ == "Access-Control-Allow-Headers"@ && h@[2].1@ == "Content-Type"@,
{
    let mut h: Vec<(String, String)> = Vec::new();
    h.push((String::from_str("Access-Control-Allow-Origin"), String::from_str("*")));
    h.push((String::from_str("Access-Control-Allow-Methods"), String::from_str("GET, POST, DELETE, OPTIONS")));
    h.push((String::from_str("Access-Control-Allow-Headers"), String::from_str("Content-Type")));
    h
}

/// The lowercase hexadecimal digit for `d < 16`.
pub open spec fn hex_digit_char(d: nat) -> char {
    if d < 10 {
        ((48 + d) as u8) as char
    } else {
        ((87 + d) as u8) as char
    }
}

/// The lowest `width` hexadecimal digits of `n`, most significant first
/// (`format!("{:0width$x}")` when `n` has at most `width` digits).
pub open spec fn hex_padded(n: nat, width: nat) -> Seq<char>
    decreases width,
{
    if width == 0 {
        Seq::empty()
    } else {
        hex_padded(n / 16, (width - 1) as nat).push(hex_digit_char(n % 16))
    }
}

fn push_hex(s: &mut String, n: u128, width: u32)
    ensures
        final(s)@ == old(s)@ + hex_padded(n as nat, width as nat),
    decreases width,
{
    if width > 0 {
        push_hex(s, n / 16, width - 1);
        let d: u8 = (n % 16) as u8;
        let c: char = if d < 10 {
            (48u8 + d) as char
        } else {
            (87u8 + d) as char
        };
        push_char(s, c);
        assert(s@ =~= old(s)@ + hex_padded(n as nat, width as nat));
    }
}

/// The Worker's object id for a clock reading in nanoseconds since the
/// epoch: the reading as 32 lowercase hexadecimal digits.
pub fn uuid_v4(nanos: u128) -> (s: String)
    ensures
        s@ == hex_padded(nanos as nat, 32),
        s@.len() == 32,
{
    let mut s = String::new();
    push_hex(&mut s, nanos, 32);
    proof {
        lemma_hex_padded_len(nanos as nat, 32);
    }
    s
}

proof fn lemma_hex_padded_len(n: nat, width: nat)
    ensures
        hex_padded(n, width).len() == width,
    decreases width,
{
    if width > 0 {
        lemma_hex_padded_len(n / 16, (width - 1) as nat);
    }
}

} // verus!
