//! Names and defaults of the configuration.
pub mod app_constants;
pub mod app_environments;
pub mod app_keys;
