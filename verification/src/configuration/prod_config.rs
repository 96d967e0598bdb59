//! Settings of the production environment.
use vstd::prelude::*;

use crate::named_values::NamedValues;

use super::{settings_for, settings_spec, Configs};

verus! {

/// The production settings, from the environment after `.env.prod` was
/// loaded; they differ from the local ones in the environment name.
pub fn settings(env: &NamedValues) -> (c: Configs)
    ensures
        settings_spec(env@, "prod"@, c),
{
    settings_for(env, "prod")
}

} // verus!
