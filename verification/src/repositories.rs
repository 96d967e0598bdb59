//! What the database repositories decide around their queries: the errors
//! of the relational repositories, and the document ids of the document
//! repositories.
use vstd::prelude::*;

use crate::domain::object_id::{parse_object_id_spec, ObjectId};

verus! {

broadcast use vstd::string::group_string_axioms;

/// The error of the relational repositories.
#[derive(Debug, Clone)]
pub enum PsqlAppError {
    /// A driver error, with the driver's own message.
    DatabaseError(String),
    AlreadyExists,
    Internal(String),
}

/// The message of a repository error.
pub open spec fn psql_message(e: PsqlAppError) -> Seq<char> {
    match e {
        PsqlAppError::DatabaseError(m) => "Database error occurred: "@ + m@,
        PsqlAppError::AlreadyExists => "User role already exists"@,
        PsqlAppError::Internal(m) => "Internal server error: "@ + m@,
    }
}

impl PsqlAppError {
    /// The error's message.
    pub fn message(&self) -> (s: String)
        ensures
            s@ == psql_message(*self),
    {
        match self {
            PsqlAppError::DatabaseError(m) => {
                let mut s = String::from_str("Database error occurred: ");
                s.append(m.as_str());
                s
            },
            PsqlAppError::AlreadyExists => String::from_str("User role already exists"),
            PsqlAppError::Internal(m) => {
                let mut s = String::from_str("Internal server error: ");
                s.append(m.as_str());
                s
            },
        }
    }
}

/// The operation of a document repository that names a document by id.
#[derive(Clone, Copy, Debug, PartialEq, Eq, Structural)]
pub enum DocumentOp {
    Find,
    Update,
    Delete,
}

/// The message for an id that names no document: the update says
/// "Invalid Id Format", the others "Invalid ID format".
pub open spec fn invalid_id_message(op: DocumentOp) -> Seq<char> {
    match op {
        DocumentOp::Update => "Invalid Id Format"@,
        _ => "Invalid ID format"@,
    }
}

/// The document id that an operation targets, or its error message when
/// `id` is not 24 hexadecimal digits.
pub fn parse_document_id(id: &str, op: DocumentOp) -> (r: Result<ObjectId, String>)
    ensures
        match parse_object_id_spec(id@) {
            Some(b) => r matches Ok(o) && o.bytes@ == b,
            None => r matches Err(m) && m@ == invalid_id_message(op),
        },
{
    match ObjectId::parse_str(id) {
        Some(o) => Ok(o),
        None => match op {
            DocumentOp::Update => Err(String::from_str("Invalid Id Format")),
            _ => Err(String::from_str("Invalid ID format")),
        },
    }
}

/// Whether a write touched a document or row, from the count it reports.
pub fn touched(count: u64) -> (r: bool)
    ensures
        r == (count > 0),
{
    count > 0
}

} // verus!
