//! User roles: the stored row and the bodies of the role endpoints.
use vstd::prelude::*;

verus! {

/// A row of the `user_roles` table.
#[derive(Debug)]
pub struct IUserRole {
    pub id: i32,
    pub role_name: String,
    pub weight: i32,
}

/// The body for creating a role.
#[derive(Debug)]
pub struct IUserRoleCreateDto {
    pub role_name: String,
}

/// The body for updating a role.
#[derive(Debug)]
pub struct IUserRoleUpdateDto {
    pub role_name: String,
    pub weight: i32,
}

} // verus!
