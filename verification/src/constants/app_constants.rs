//! Fixed values and defaults.
use vstd::prelude::*;

verus! {

pub const APP_NAME: &'static str = "MyStartupApp";

pub const APP_IP: [u8; 4] = [127, 0, 0, 1];

pub const MONGO_URI_DEFAULT: &'static str = "localhost:5432";

pub const PORT_DEFAULT: &'static str = "8080";

pub const DATABASE_URL_DEFAULT: &'static str = "";

} // verus!
