//! The names of the deployment environments.
use vstd::prelude::*;

verus! {

pub const LOCAL: &'static str = "local";

pub const DEV: &'static str = "development";

pub const STAGE: &'static str = "staging";

pub const PROD: &'static str = "production";

} // verus!
