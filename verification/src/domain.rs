//! The records the service stores and the bodies its endpoints accept and answer.
pub mod object_id;
pub mod validation;
pub mod gallery;
pub mod user_roles;
pub mod users;
pub mod orders;
pub mod products;
