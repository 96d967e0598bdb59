//! Users: the stored row and the bodies of the user endpoints.
use vstd::prelude::*;

use super::validation::{
    byte_count, byte_len, check_length, check_range, finish, length_violation, line_text, note,
    range_violation,
};

verus! {

broadcast use vstd::string::group_string_axioms;

/// A row of the `users` table.
#[derive(Debug, Clone)]
pub struct User {
    pub id: i32,
    pub name: String,
    pub profile_image: String,
    pub role_id: i32,
}

/// The body for creating a user; `profile_image` is filled in after the upload.
#[derive(Debug)]
pub struct UserCreateDto {
    pub name: String,
    pub profile_image: String,
    pub role_id: i32,
}

/// A user as answered.
#[derive(Debug, Clone)]
pub struct UserDto {
    pub id: i32,
    pub name: String,
    pub profile_image: String,
    pub role_id: i32,
}

/// The body for updating a user; `profile_image` of `None` keeps the stored one.
#[derive(Debug)]
pub struct UserUpdateDto {
    pub id: i32,
    pub name: String,
    pub profile_image: Option<String>,
    pub role_id: i32,
}

/// The rule on a user's name: 1 to 255 bytes.
pub open spec fn name_violation(name: Seq<char>) -> Option<Seq<char>> {
    length_violation(byte_len(name), 1, 255)
}

/// The rule on a role id: at least 1.
pub open spec fn role_violation(role_id: i32) -> Option<Seq<char>> {
    range_violation(role_id as int, 1, None)
}

impl UserCreateDto {
    /// The validation report: `name` of 1 to 255 bytes, `profile_image` of 1
    /// to 2048 bytes, `role_id` at least 1.
    pub open spec fn report(&self) -> Seq<char> {
        line_text("name"@, name_violation(self.name@))
            + line_text("profile_image"@, length_violation(byte_len(self.profile_image@), 1, 2048))
            + line_text("role_id"@, role_violation(self.role_id))
    }

    /// Whether every rule holds.
    pub open spec fn is_valid(&self) -> bool {
        &&& 1 <= byte_len(self.name@) <= 255
        &&& 1 <= byte_len(self.profile_image@) <= 2048
        &&& self.role_id >= 1
    }

    /// Checks the body; the report of the broken rules when any is.
    pub fn validate(&self) -> (r: Result<(), String>)
        ensures
            r is Ok <==> self.is_valid(),
            r matches Err(t) ==> t@ == self.report(),
    {
        let mut report = String::new();
        note(&mut report, "name", check_length(byte_count(&self.name), 1, 255));
        note(&mut report, "profile_image", check_length(byte_count(&self.profile_image), 1, 2048));
        note(&mut report, "role_id", check_range(self.role_id as i64, 1, None));
        finish(report)
    }
}

impl UserUpdateDto {
    /// The validation report: `name` of 1 to 255 bytes, `role_id` at least 1
    /// (`id` and `profile_image` are not checked).
    pub open spec fn report(&self) -> Seq<char> {
        line_text("name"@, name_violation(self.name@)) + line_text("role_id"@, role_violation(self.role_id))
    }

    /// Whether every rule holds.
    pub open spec fn is_valid(&self) -> bool {
        &&& 1 <= byte_len(self.name@) <= 255
        &&& self.role_id >= 1
    }

    /// Checks the body; the report of the broken rules when any is.
    pub fn validate(&self) -> (r: Result<(), String>)
        ensures
            r is Ok <==> self.is_valid(),
            r matches Err(t) ==> t@ == self.report(),
    {
        let mut report = String::new();
        note(&mut report, "name", check_length(byte_count(&self.name), 1, 255));
        note(&mut report, "role_id", check_range(self.role_id as i64, 1, None));
        finish(report)
    }
}

impl UserDto {
    /// The answer for a stored user: the same fields.
    pub fn from_user(user: User) -> (r: UserDto)
        ensures
            r.id == user.id,
            r.name@ == user.name@,
            r.profile_image@ == user.profile_image@,
            r.role_id == user.role_id,
    {
        UserDto { id: user.id, name: user.name, profile_image: user.profile_image, role_id: user.role_id }
    }
}

/// The repository of the `users` table.  Its queries run against the
/// database; `repositories::touched` reads the count a delete reports.
pub struct UserRepo;

} // verus!
