//! The Cloudflare Worker that fronts the R2 bucket: its encryption helper
//! and the decisions of its upload handler.
pub mod encryption;

pub mod upload;
