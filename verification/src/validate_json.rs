//! Request bodies that have been parsed and validated.
use vstd::prelude::*;

verus! {

broadcast use vstd::string::group_string_axioms;

/// A request body that was parsed and passed its validation.
#[derive(Debug, Clone, Copy, Default)]
pub struct ValidatedJson<T>(pub T);

/// Why a body was refused: it was no JSON of the expected shape (with the
/// parser's explanation), or it broke its rules (with the validation report).
#[derive(Debug, Clone)]
pub enum BodyRejection {
    InvalidJson(String),
    ValidationFailed(String),
}

impl BodyRejection {
    /// The answer: status 400, the error label and the details.
    pub fn parts(self) -> (r: (u16, String, String))
        ensures
            r.0 == 400,
            match self {
                BodyRejection::InvalidJson(d) => r.1@ == "Invalid JSON format"@ && r.2@ == d@,
                BodyRejection::ValidationFailed(d) => r.1@ == "Validation failed"@ && r.2@ == d@,
            },
    {
        match self {
            BodyRejection::InvalidJson(d) => (400, String::from_str("Invalid JSON format"), d),
            BodyRejection::ValidationFailed(d) => (400, String::from_str("Validation failed"), d),
        }
    }
}

impl<T> ValidatedJson<T> {
    /// Accepts a parsed body whose validation passed; refuses it with the
    /// validation report otherwise.
    pub fn accept(value: T, validation: Result<(), String>) -> (r: Result<ValidatedJson<T>, BodyRejection>)
        ensures
            match validation {
                Ok(()) => r matches Ok(v) && v.0 == value,
                Err(report) => r matches Err(BodyRejection::ValidationFailed(d)) && d@ == report@,
            },
    {
        match validation {
            Ok(()) => Ok(ValidatedJson(value)),
            Err(report) => Err(BodyRejection::ValidationFailed(report)),
        }
    }
}

} // verus!
