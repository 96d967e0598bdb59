//! Settings of the local environment.
use vstd::prelude::*;

use crate::named_values::NamedValues;

use super::{settings_for, settings_spec, Configs};

verus! {

/// The local settings, from the environment after `.env` was loaded.
pub fn settings(env: &NamedValues) -> (c: Configs)
    ensures
        settings_spec(env@, "local"@, c),
{
    settings_for(env, "local")
}

} // verus!
