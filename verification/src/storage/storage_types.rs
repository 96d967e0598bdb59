//! The values exchanged with storage providers, and how storage keys are built.
use vstd::prelude::*;

use crate::app_error::{error_view, AppError};
use crate::domain::object_id::lower_hex;
use crate::entropy::os_random_bytes;
use crate::text::{chars_of, lemma_rfind_char, push_char, rfind_char, rfind_char_in, trim_end_char, trim_end_len, append_range};

verus! {

broadcast use vstd::string::group_string_axioms;

/// Input for storing a file via any provider.
#[derive(Debug, Clone)]
pub struct StoreFileInput {
    pub buffer: Vec<u8>,
    pub file_name: String,
    pub content_type: String,
    pub directory: String,
}

/// Result returned after a successful store operation.
#[derive(Debug, Clone)]
pub struct StoreFileResult {
    pub key: String,
    pub url: String,
    pub content_type: String,
    pub size: u64,
}

/// Configuration for generating a presigned upload URL.
#[derive(Debug, Clone)]
pub struct PresignedUploadConfig {
    /// MIME type of the file (e.g. "image/jpeg").
    pub content_type: String,
    /// Original file name (used to generate a unique storage key).
    pub file_name: String,
    /// Target directory/prefix in the bucket (e.g. "gallery").
    pub directory: String,
    /// How long the URL is valid, in seconds (default: 3600).
    pub expires_in_secs: u64,
}

impl Default for PresignedUploadConfig {
    fn default() -> (c: Self)
        ensures
            c.content_type@ == Seq::<char>::empty(),
            c.file_name@ == Seq::<char>::empty(),
            c.directory@ == "uploads"@,
            c.expires_in_secs == 3600,
    {
        PresignedUploadConfig {
            content_type: String::new(),
            file_name: String::new(),
            directory: String::from_str("uploads"),
            expires_in_secs: 3600,
        }
    }
}

/// Result from generating a presigned upload URL.
#[derive(Debug, Clone)]
pub struct PresignedUploadResult {
    /// The presigned URL the frontend uploads the file to.
    pub url: String,
    /// The storage key reserved for this upload.
    pub key: String,
    /// The HTTP method for the upload (always "PUT").
    pub method: String,
    /// Additional required headers (e.g. Content-Type).
    pub headers: Option<Vec<(String, String)>>,
}

/// The presigned upload answer for a `PUT` of `content_type` to `url`,
/// reserving `key`.
pub fn presigned_put_result(url: String, key: String, content_type: String) -> (r: PresignedUploadResult)
    ensures
        r.url@ == url@,
        r.key@ == key@,
        r.method@ == "PUT"@,
        r.headers matches Some(h) && h@.len() == 1 && h@[0].0@ == "Content-Type"@ && h@[0].1@ == content_type@,
{
    let mut headers: Vec<(String, String)> = Vec::new();
    headers.push((String::from_str("Content-Type"), content_type));
    PresignedUploadResult { url, key, method: String::from_str("PUT"), headers: Some(headers) }
}

/// `char::is_alphanumeric` (Unicode `Alphabetic` or `Numeric`).
pub uninterp spec fn char_alphanumeric(c: char) -> bool;

/// ASCII letters and digits.
pub open spec fn ascii_alphanumeric(c: char) -> bool {
    ('a' <= c <= 'z') || ('A' <= c <= 'Z') || ('0' <= c <= '9')
}

/// `char::is_alphanumeric`: ASCII letters and digits within ASCII, the
/// Unicode `Alphabetic` or `Numeric` property beyond it.
pub open spec fn alphanumeric(c: char) -> bool {
    if (c as u32) < 128 {
        ascii_alphanumeric(c)
    } else {
        char_alphanumeric(c)
    }
}

/// `char::is_alphanumeric`.  Within ASCII, the std documentation's
/// `Alphabetic`/`Numeric` properties hold exactly for letters and digits;
/// beyond ASCII the answer is left to the name `char_alphanumeric`.
#[verifier::external_body]
fn is_alphanumeric(c: char) -> (r: bool)
    ensures
        r == char_alphanumeric(c),
        (c as u32) < 128 ==> (r <==> ascii_alphanumeric(c)),
{
    c.is_alphanumeric()
}

/// A lowercase hexadecimal digit.
pub open spec fn lower_hex_digit(c: char) -> bool {
    ('0' <= c <= '9') || ('a' <= c <= 'f')
}

/// The shape of a hyphenated lowercase UUID: 36 characters, hyphens at
/// positions 8, 13, 18 and 23, lowercase hexadecimal digits elsewhere.
pub open spec fn uuid_text(s: Seq<char>) -> bool {
    &&& s.len() == 36
    &&& forall|i: int| 0 <= i < 36 ==> if i == 8 || i == 13 || i == 18 || i == 23 {
        s[i] == '-'
    } else {
        lower_hex_digit(s[i])
    }
}

/// Sixteen random bytes with the version (4) and variant (RFC 4122) bits set.
pub open spec fn v4_bytes(b: Seq<u8>) -> Seq<u8> {
    b.update(6, (b[6] & 0x0fu8) | 0x40u8).update(8, (b[8] & 0x3fu8) | 0x80u8)
}

/// Thirty-two hexadecimal digits in the hyphenated 8-4-4-4-12 layout.
pub open spec fn hyphenated(h: Seq<char>) -> Seq<char> {
    h.subrange(0, 8) + "-"@ + h.subrange(8, 12) + "-"@ + h.subrange(12, 16) + "-"@ + h.subrange(16, 20) + "-"@
        + h.subrange(20, 32)
}

/// The hyphenated lowercase text of the version-4 UUID made from sixteen
/// random bytes.
pub open spec fn uuid_v4_text_of(b: Seq<u8>) -> Seq<char> {
    hyphenated(lower_hex(v4_bytes(b)))
}

/// `uuid::Builder::from_random_bytes(bytes).into_uuid()` rendered with
/// `Display`: the crate sets the version bits of byte 6 to 4 and the variant
/// bits of byte 8 to RFC 4122, and writes the UUID in hyphenated lowercase
/// hexadecimal.
#[verifier::external_body]
fn uuid_v4_text(bytes: [u8; 16]) -> (s: String)
    ensures
        s@ == uuid_v4_text_of(bytes@),
        uuid_text(s@),
{
    uuid::Builder::from_random_bytes(bytes).into_uuid().to_string()
}

/// The character a file name keeps in a storage key: alphanumerics, '.', '-'
/// and '_' stay, anything else becomes '_'.
pub open spec fn sanitize_char(c: char) -> char {
    if alphanumeric(c) || c == '.' || c == '-' || c == '_' {
        c
    } else {
        '_'
    }
}

/// A file name with every character sanitized.
pub open spec fn sanitize_spec(name: Seq<char>) -> Seq<char> {
    name.map_values(|c: char| sanitize_char(c))
}

/// The storage key `{directory without trailing '/'}/{id}-{sanitized name}`.
pub open spec fn storage_key_spec(directory: Seq<char>, id: Seq<char>, file_name: Seq<char>) -> Seq<char> {
    trim_end_char(directory, '/') + "/"@ + id + "-"@ + sanitize_spec(file_name)
}

/// The storage key for a file, given the unique id that distinguishes it.
pub fn storage_key_with_id(directory: &str, id: &str, file_name: &str) -> (r: String)
    ensures
        r@ == storage_key_spec(directory@, id@, file_name@),
        no_slash(sanitize_spec(file_name@)),
{
    let dir = chars_of(directory);
    let n = trim_end_len(&dir, '/');
    let mut key = String::new();
    append_range(&mut key, &dir, 0, n);
    key.append("/");
    key.append(id);
    key.append("-");
    let name = chars_of(file_name);
    let ghost before = key@;
    let mut i: usize = 0;
    while i < name.len()
        invariant
            i <= name@.len(),
            name@ == file_name@,
            key@ == before + sanitize_spec(name@).take(i as int),
            forall|j: int| 0 <= j < i ==> sanitize_spec(name@)[j] != '/',
        decreases name@.len() - i,
    {
        let c = name[i];
        let alnum = is_alphanumeric(c);
        let keep = alnum || c == '.' || c == '-' || c == '_';
        if keep {
            push_char(&mut key, c);
        } else {
            push_char(&mut key, '_');
        }
        assert(key@ =~= before + sanitize_spec(name@).take(i + 1));
        i += 1;
    }
    assert(sanitize_spec(name@).take(name@.len() as int) =~= sanitize_spec(name@));
    assert(dir@.subrange(0, n as int) =~= dir@.take(n as int));
    key
}

/// The storage key for a file, with the version-4 UUID made from sixteen
/// random bytes as its id.
pub fn storage_key_from_random(directory: &str, file_name: &str, random: [u8; 16]) -> (r: String)
    ensures
        r@ == storage_key_spec(directory@, uuid_v4_text_of(random@), file_name@),
        uuid_text(uuid_v4_text_of(random@)),
        last_segment(r@) == uuid_v4_text_of(random@) + "-"@ + sanitize_spec(file_name@),
{
    let id = uuid_v4_text(random);
    let key = storage_key_with_id(directory, id.as_str(), file_name);
    proof {
        lemma_file_name_of_storage_key(directory@, id@, file_name@);
    }
    key
}

/// The message of a failed draw of a storage key's random id.
pub open spec fn key_id_failure(m: Seq<char>) -> bool {
    exists|t: Seq<char>| m == "Failed to generate storage key id: "@ + t
}

/// Generates a unique storage key `{directory}/{uuid}-{sanitized_file_name}`
/// from sixteen bytes of the operating system's random source.  Its file
/// name (last segment) is `{uuid}-{sanitized_file_name}`.  It fails, with an
/// internal error, only when the random source fails.
pub fn build_storage_key(directory: &str, file_name: &str) -> (r: Result<String, AppError>)
    ensures
        r matches Ok(k) ==> exists|random: Seq<u8>| {
            &&& random.len() == 16
            &&& uuid_text(uuid_v4_text_of(random))
            &&& k@ == storage_key_spec(directory@, uuid_v4_text_of(random), file_name@)
            &&& last_segment(k@) == uuid_v4_text_of(random) + "-"@ + sanitize_spec(file_name@)
        },
        r matches Err(e) ==> error_view(e).0 == 5 && key_id_failure(error_view(e).1),
{
    let bytes = match os_random_bytes(16) {
        Ok(b) => b,
        Err(t) => {
            let mut m = String::from_str("Failed to generate storage key id: ");
            m.append(t.as_str());
            return Err(AppError::Internal(m));
        },
    };
    let mut random = [0u8; 16];
    let mut i: usize = 0;
    while i < 16
        invariant
            bytes@.len() == 16,
            i <= 16,
            forall|j: int| 0 <= j < i ==> random@[j] == bytes@[j],
        decreases 16 - i,
    {
        random[i] = bytes[i];
        i += 1;
    }
    Ok(storage_key_from_random(directory, file_name, random))
}

/// The last '/'-separated segment of a key (all of it when there is no '/').
pub open spec fn last_segment(key: Seq<char>) -> Seq<char> {
    match rfind_char(key, '/') {
        Some(i) => key.skip(i + 1),
        None => key,
    }
}

/// The file name part of a storage key: its last '/'-separated segment.
pub fn file_name_from_key(key: &str) -> (r: Option<&str>)
    ensures
        r matches Some(s) && s@ == last_segment(key@),
{
    let chars = chars_of(key);
    proof {
        lemma_rfind_char(chars@, '/');
    }
    let n = chars.len();
    match rfind_char_in(&chars, '/') {
        Some(i) => Some(key.substring_char(i + 1, n)),
        None => Some(key.substring_char(0, chars.len())),
    }
}

/// Whether `s` holds no '/'.
pub open spec fn no_slash(s: Seq<char>) -> bool {
    forall|i: int| 0 <= i < s.len() ==> s[i] != '/'
}

/// When no position after `prefix` holds '/', the last '/' of
/// `prefix + "/" + rest` is the one just after `prefix`.
pub proof fn lemma_last_segment_after_slash(prefix: Seq<char>, rest: Seq<char>)
    requires
        forall|i: int| 0 <= i < rest.len() ==> rest[i] != '/',
    ensures
        last_segment(prefix + "/"@ + rest) == rest,
    decreases rest.len(),
{
    let s = prefix + "/"@ + rest;
    reveal_strlit("/");
    if rest.len() == 0 {
        assert(s.drop_last() =~= prefix);
        assert(s.skip(prefix.len() + 1int) =~= rest);
    } else {
        lemma_last_segment_after_slash(prefix, rest.drop_last());
        let t = prefix + "/"@ + rest.drop_last();
        assert(s.drop_last() =~= t);
        lemma_rfind_char(t, '/');
        assert(t[prefix.len() as int] == '/');
        assert(rfind_char(t, '/') == Some(prefix.len() as int)) by {
            if rfind_char(t, '/') != Some(prefix.len() as int) {
                lemma_rfind_char(t, '/');
                assert(t.skip(prefix.len() + 1int) =~= rest.drop_last());
            }
        }
        assert(s.skip(prefix.len() + 1int) =~= rest);
    }
}

/// The file name of a storage key built from a UUID is `{id}-{sanitized name}`:
/// nothing of the directory leaks into it.
pub proof fn lemma_file_name_of_storage_key(directory: Seq<char>, id: Seq<char>, file_name: Seq<char>)
    requires
        uuid_text(id),
        no_slash(sanitize_spec(file_name)),
    ensures
        last_segment(storage_key_spec(directory, id, file_name)) == id + "-"@ + sanitize_spec(file_name),
{
    reveal_strlit("-");
    let rest = id + "-"@ + sanitize_spec(file_name);
    assert forall|i: int| 0 <= i < rest.len() implies rest[i] != '/' by {
        if i < 36 {
            assert(id[i] == '-' || lower_hex_digit(id[i]));
        } else if i > 36 {
            assert(rest[i] == sanitize_spec(file_name)[i - 37]);
        }
    }
    assert(storage_key_spec(directory, id, file_name) =~= trim_end_char(directory, '/') + "/"@ + rest);
    lemma_last_segment_after_slash(trim_end_char(directory, '/'), rest);
}

} // verus!
