//! Names of the environment variables the configuration reads.
use vstd::prelude::*;

verus! {

pub const MONGO_URI: &'static str = "DATABASE_URL";

pub const PORT: &'static str = "PORT";

pub const APP_ENV: &'static str = "APP_ENV";

pub const DATABASE_URL: &'static str = "DATABASE_URL";

} // verus!
