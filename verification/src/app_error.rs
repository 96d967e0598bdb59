//! The error type that every fallible operation of the library returns, and
//! how it maps onto an HTTP status and a JSON error body.
use vstd::prelude::*;
use vstd::std_specs::convert::FromSpecImpl;

use crate::text::str_eq;

verus! {

broadcast use vstd::string::group_string_axioms;

/// Application-level error.
///
/// The two database variants hold the diagnostic text (the `Debug`
/// rendering) of the driver error that caused them.
#[derive(Debug, Clone)]
pub enum AppError {
    NotFound(String),
    Conflict(String),
    BadRequest(String),
    DatabaseError(String),
    SqlxError(String),
    Internal(String),
}

/// A relational-database driver failure, reduced to what the error mapping reads.
#[derive(Debug, Clone)]
pub enum SqlxFailure {
    /// The query returned no row where one was required.
    RowNotFound,
    /// The database engine reported an error, with its SQLSTATE code if any.
    Database { code: Option<String>, message: String },
    /// The connection pool timed out.
    PoolTimedOut,
    /// A network I/O failure, with its description.
    Io(String),
    /// Any other driver failure, with its diagnostic text.
    Other(String),
}

/// The view of an error: its variant and the characters it carries.
pub open spec fn error_view(e: AppError) -> (int, Seq<char>) {
    match e {
        AppError::NotFound(m) => (0, m@),
        AppError::Conflict(m) => (1, m@),
        AppError::BadRequest(m) => (2, m@),
        AppError::DatabaseError(m) => (3, m@),
        AppError::SqlxError(m) => (4, m@),
        AppError::Internal(m) => (5, m@),
    }
}

/// HTTP status, error title and details that an error is answered with.
pub open spec fn response_spec(e: AppError) -> (u16, Seq<char>, Seq<char>) {
    match e {
        AppError::NotFound(m) => (404, "Not Found"@, m@),
        AppError::Conflict(m) => (409, "Conflict"@, m@),
        AppError::BadRequest(m) => (400, "Bad Request"@, m@),
        AppError::DatabaseError(_) => (
            500,
            "Database Failure"@,
            "An unexpected error occurred on the MongoDB storage engine level."@,
        ),
        AppError::SqlxError(_) => (
            500,
            "Database Failure"@,
            "An unexpected error occurred on the PostgreSQL database level."@,
        ),
        AppError::Internal(m) => (500, "Internal Server Error"@, m@),
    }
}

pub open spec fn mongo_duplicate_key_message() -> Seq<char> {
    "The value provided breaks a unique field constraint in the document collection."@
}

pub open spec fn mongo_schema_message() -> Seq<char> {
    "Schema validation failed on the MongoDB engine level. Check data formats."@
}

/// The error that a document-database failure with the given server code maps to.
pub open spec fn mongodb_error_spec(code: Option<i32>, description: Seq<char>) -> (int, Seq<char>) {
    match code {
        Some(11000) => (1, mongo_duplicate_key_message()),
        Some(121) => (2, mongo_schema_message()),
        _ => (3, description),
    }
}

/// The message and variant for a SQLSTATE code the mapping knows, if it knows it.
pub open spec fn sql_state_spec(code: Seq<char>) -> Option<(int, Seq<char>)> {
    if code == "23505"@ {
        Some((1, "Duplicate key entry violation. A record with these unique details already exists."@))
    } else if code == "23503"@ {
        Some((1, "Foreign key constraint violation. Referenced parent or child record does not exist."@))
    } else if code == "23502"@ {
        Some((2, "Not null constraint violation. A required database field was missing or null."@))
    } else if code == "23514"@ {
        Some((2, "Database check constraint violation. Input data values fail domain business logic restrictions."@))
    } else if code == "22001"@ {
        Some((2, "String data right truncation. Provided input value exceeds maximum column character length."@))
    } else if code == "22P02"@ {
        Some((2, "Invalid text representation format. Invalid type conversion format parsed on data layer."@))
    } else {
        None
    }
}

/// The error kind of each SQLSTATE the mapping knows: unique and foreign-key
/// violations (23505, 23503) are conflicts; not-null and check violations,
/// right truncation and invalid text representation (23502, 23514, 22001,
/// 22P02) are bad requests.
pub proof fn lemma_sql_state_kinds(code: Seq<char>)
    ensures
        code == "23505"@ ==> (sql_state_spec(code) matches Some((k, _)) && k == 1),
        code == "23503"@ ==> (sql_state_spec(code) matches Some((k, _)) && k == 1),
        code == "23502"@ ==> (sql_state_spec(code) matches Some((k, _)) && k == 2),
        code == "23514"@ ==> (sql_state_spec(code) matches Some((k, _)) && k == 2),
        code == "22001"@ ==> (sql_state_spec(code) matches Some((k, _)) && k == 2),
        code == "22P02"@ ==> (sql_state_spec(code) matches Some((k, _)) && k == 2),
{
    reveal_strlit("23505");
    reveal_strlit("23503");
    reveal_strlit("23502");
    reveal_strlit("23514");
    reveal_strlit("22001");
    reveal_strlit("22P02");
    if code == "23502"@ {
        assert(code[4] != "23505"@[4]);
        assert(code[4] != "23503"@[4]);
    } else if code == "23514"@ {
        assert(code[3] != "23505"@[3]);
        assert(code[3] != "23503"@[3]);
        assert(code[4] != "23502"@[4]);
    } else if code == "22001"@ {
        assert(code[1] != "23505"@[1]);
        assert(code[1] != "23503"@[1]);
        assert(code[1] != "23502"@[1]);
        assert(code[1] != "23514"@[1]);
    } else if code == "22P02"@ {
        assert(code[1] != "23505"@[1]);
        assert(code[1] != "23503"@[1]);
        assert(code[1] != "23502"@[1]);
        assert(code[1] != "23514"@[1]);
        assert(code[2] != "22001"@[2]);
    }
}

/// A database failure that carries a known SQLSTATE maps to that code's kind,
/// whatever its message: a conflict (409) for 23505 and 23503, a bad request
/// (400) for 23502, 23514, 22001 and 22P02.
pub proof fn lemma_sqlx_database_codes(f: SqlxFailure)
    ensures
        f matches SqlxFailure::Database { code: Some(c), .. } ==> {
            &&& (c@ == "23505"@ || c@ == "23503"@) ==> sqlx_error_spec(f).0 == 1
            &&& (c@ == "23502"@ || c@ == "23514"@ || c@ == "22001"@ || c@ == "22P02"@)
                ==> sqlx_error_spec(f).0 == 2
        },
{
    if let SqlxFailure::Database { code: Some(c), .. } = f {
        lemma_sql_state_kinds(c@);
    }
}

/// The error that a relational-database failure maps to.
pub open spec fn sqlx_error_spec(f: SqlxFailure) -> (int, Seq<char>) {
    match f {
        SqlxFailure::RowNotFound => (0, "The requested relational database record could not be found."@),
        SqlxFailure::Database { code, message } => match code {
            Some(c) => match sql_state_spec(c@) {
                Some(mapped) => mapped,
                None => (5, "Unmapped Postgres Error (Code: "@ + c@ + "): "@ + message@),
            },
            None => (5, "Database driver exception: "@ + message@),
        },
        SqlxFailure::PoolTimedOut => (5, "Database connection pool timeout. Server overloaded."@),
        SqlxFailure::Io(d) => (5, "Database network IO transmission breakdown: "@ + d@),
        SqlxFailure::Other(d) => (4, d@),
    }
}

impl AppError {
    /// The HTTP status code, error title and details of the JSON body that
    /// this error is answered with.
    pub fn into_response_parts(self) -> (r: (u16, String, String))
        ensures
            (r.0, r.1@, r.2@) == response_spec(self),
    {
        match self {
            AppError::NotFound(msg) => (404, String::from_str("Not Found"), msg),
            AppError::Conflict(msg) => (409, String::from_str("Conflict"), msg),
            AppError::BadRequest(msg) => (400, String::from_str("Bad Request"), msg),
            AppError::DatabaseError(_) => (
                500,
                String::from_str("Database Failure"),
                String::from_str("An unexpected error occurred on the MongoDB storage engine level."),
            ),
            AppError::SqlxError(_) => (
                500,
                String::from_str("Database Failure"),
                String::from_str("An unexpected error occurred on the PostgreSQL database level."),
            ),
            AppError::Internal(msg) => (500, String::from_str("Internal Server Error"), msg),
        }
    }

    /// Maps a document-database failure, given by its server error code (if
    /// the failure carried one) and its diagnostic text, onto an application
    /// error: duplicate keys become conflicts, schema validation failures
    /// become bad requests, everything else stays a database error.
    pub fn from_mongodb_failure(code: Option<i32>, description: String) -> (r: AppError)
        ensures
            error_view(r) == mongodb_error_spec(code, description@),
    {
        match code {
            Some(11000) => AppError::Conflict(String::from_str(
                "The value provided breaks a unique field constraint in the document collection.",
            )),
            Some(121) => AppError::BadRequest(String::from_str(
                "Schema validation failed on the MongoDB engine level. Check data formats.",
            )),
            _ => AppError::DatabaseError(description),
        }
    }

    /// Maps a relational-database failure onto an application error.
    pub fn from_sqlx_failure(failure: SqlxFailure) -> (r: AppError)
        ensures
            error_view(r) == sqlx_error_spec(failure),
    {
        match failure {
            SqlxFailure::RowNotFound => AppError::NotFound(String::from_str(
                "The requested relational database record could not be found.",
            )),
            SqlxFailure::Database { code, message } => match code {
                Some(c) => match sql_state_error(c.as_str()) {
                    Some(e) => e,
                    None => {
                        let mut m = String::from_str("Unmapped Postgres Error (Code: ");
                        m.append(c.as_str());
                        m.append("): ");
                        m.append(message.as_str());
                        AppError::Internal(m)
                    },
                },
                None => {
                    let mut m = String::from_str("Database driver exception: ");
                    m.append(message.as_str());
                    AppError::Internal(m)
                },
            },
            SqlxFailure::PoolTimedOut => AppError::Internal(String::from_str(
                "Database connection pool timeout. Server overloaded.",
            )),
            SqlxFailure::Io(d) => {
                let mut m = String::from_str("Database network IO transmission breakdown: ");
                m.append(d.as_str());
                AppError::Internal(m)
            },
            SqlxFailure::Other(d) => AppError::SqlxError(d),
        }
    }
}

/// The error for a SQLSTATE code the mapping knows.
fn sql_state_error(code: &str) -> (r: Option<AppError>)
    ensures
        match sql_state_spec(code@) {
            Some(m) => r matches Some(e) && error_view(e) == m,
            None => r is None,
        },
{
    if str_eq(code, "23505") {
        Some(AppError::Conflict(String::from_str(
            "Duplicate key entry violation. A record with these unique details already exists.",
        )))
    } else if str_eq(code, "23503") {
        Some(AppError::Conflict(String::from_str(
            "Foreign key constraint violation. Referenced parent or child record does not exist.",
        )))
    } else if str_eq(code, "23502") {
        Some(AppError::BadRequest(String::from_str(
            "Not null constraint violation. A required database field was missing or null.",
        )))
    } else if str_eq(code, "23514") {
        Some(AppError::BadRequest(String::from_str(
            "Database check constraint violation. Input data values fail domain business logic restrictions.",
        )))
    } else if str_eq(code, "22001") {
        Some(AppError::BadRequest(String::from_str(
            "String data right truncation. Provided input value exceeds maximum column character length.",
        )))
    } else if str_eq(code, "22P02") {
        Some(AppError::BadRequest(String::from_str(
            "Invalid text representation format. Invalid type conversion format parsed on data layer.",
        )))
    } else {
        None
    }
}

/// A bare message becomes an internal error.
impl From<String> for AppError {
    fn from(err: String) -> (r: AppError) {
        AppError::Internal(err)
    }
}

impl FromSpecImpl<String> for AppError {
    open spec fn obeys_from_spec() -> bool {
        true
    }

    open spec fn from_spec(v: String) -> AppError {
        AppError::Internal(v)
    }
}

/// A message given as a string slice becomes an internal error with those
/// characters.  (A `String` value cannot be built in a specification from a
/// slice, so the conversion states its result through `error_view` rather
/// than through `from_spec`.)
impl<'a> From<&'a str> for AppError {
    fn from(err: &'a str) -> (r: AppError)
        ensures
            error_view(r) == (5int, err@),
    {
        AppError::Internal(String::from_str(err))
    }
}

impl<'a> FromSpecImpl<&'a str> for AppError {
    open spec fn obeys_from_spec() -> bool {
        false
    }

    open spec fn from_spec(v: &'a str) -> AppError {
        choose|e: AppError| error_view(e) == (5int, v@)
    }
}

} // verus!
