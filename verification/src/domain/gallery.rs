//! Gallery items: the stored record and the bodies of the gallery endpoints.
use vstd::prelude::*;

use super::object_id::{lower_hex, ObjectId};
use super::validation::{byte_count, byte_len, check_length, finish, length_violation, line_text, note};

verus! {

broadcast use vstd::string::group_string_axioms;

/// A stored gallery item.
#[derive(Debug, Clone)]
pub struct GalleryItem {
    pub id: Option<ObjectId>,
    pub url: String,
    pub status: String,
}

/// The body for creating a gallery item; `url` is filled in after the upload.
#[derive(Debug, Clone)]
pub struct GalleryCreateDto {
    pub url: String,
    pub status: String,
}

/// A gallery item as answered.
#[derive(Debug, Clone)]
pub struct GalleryDto {
    pub id: String,
    pub url: String,
    pub status: String,
}

/// The body for updating a gallery item's status.
#[derive(Debug, Clone)]
pub struct GalleryUpdateDto {
    pub id: String,
    pub status: String,
}

/// The rule on a gallery status: 1 to 50 bytes.
pub open spec fn status_violation(status: Seq<char>) -> Option<Seq<char>> {
    length_violation(byte_len(status), 1, 50)
}

impl GalleryCreateDto {
    /// The validation report: `status` of 1 to 50 bytes, `url` of 1 to 2048 bytes.
    pub open spec fn report(&self) -> Seq<char> {
        line_text("status"@, status_violation(self.status@))
            + line_text("url"@, length_violation(byte_len(self.url@), 1, 2048))
    }

    /// Whether every rule holds.
    pub open spec fn is_valid(&self) -> bool {
        &&& 1 <= byte_len(self.status@) <= 50
        &&& 1 <= byte_len(self.url@) <= 2048
    }

    /// Checks the body; the report of the broken rules when any is.
    pub fn validate(&self) -> (r: Result<(), String>)
        ensures
            r is Ok <==> self.is_valid(),
            r matches Err(t) ==> t@ == self.report(),
    {
        let mut report = String::new();
        note(&mut report, "status", check_length(byte_count(&self.status), 1, 50));
        note(&mut report, "url", check_length(byte_count(&self.url), 1, 2048));
        finish(report)
    }
}

impl GalleryUpdateDto {
    /// The validation report: `status` of 1 to 50 bytes (`id` is not checked).
    pub open spec fn report(&self) -> Seq<char> {
        line_text("status"@, status_violation(self.status@))
    }

    /// Whether every rule holds.
    pub open spec fn is_valid(&self) -> bool {
        1 <= byte_len(self.status@) <= 50
    }

    /// Checks the body; the report of the broken rules when any is.
    pub fn validate(&self) -> (r: Result<(), String>)
        ensures
            r is Ok <==> self.is_valid(),
            r matches Err(t) ==> t@ == self.report(),
    {
        let mut report = String::new();
        note(&mut report, "status", check_length(byte_count(&self.status), 1, 50));
        finish(report)
    }
}

impl GalleryDto {
    /// The answer for a stored item: its id in hexadecimal ("" when it has none).
    pub fn from_item(item: GalleryItem) -> (r: GalleryDto)
        ensures
            r.id@ == match item.id {
                Some(o) => lower_hex(o.bytes@),
                None => Seq::<char>::empty(),
            },
            r.url@ == item.url@,
            r.status@ == item.status@,
    {
        let id = match item.id {
            Some(o) => o.to_hex(),
            None => String::new(),
        };
        GalleryDto { id, url: item.url, status: item.status }
    }
}

impl GalleryItem {
    /// A new item from a create body: no id yet.
    pub fn from_create(dto: GalleryCreateDto) -> (r: GalleryItem)
        ensures
            r.id is None,
            r.url@ == dto.url@,
            r.status@ == dto.status@,
    {
        GalleryItem { id: None, url: dto.url, status: dto.status }
    }
}

} // verus!
