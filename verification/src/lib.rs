use vstd::prelude::*;

pub mod app_error;
pub mod app_state;
pub mod configuration;

pub mod constants;
pub mod domain;
pub mod entropy;
pub mod hexcode;
pub mod named_values;
pub mod repositories;
pub mod security;
pub mod storage;
pub mod text;
pub mod validate_json;
pub mod worker;

