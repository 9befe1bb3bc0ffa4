//! The errors that the HTTP interface answers with.

use vstd::prelude::*;
use vstd::string::StringExecFns;

verus! {

/// Content type of every error response.
pub const ERR_CONTENT_TYPE: &'static str = "text/plain; charset=utf-8";

/// An error of the HTTP interface. The text it carries goes to the log; the
/// client is told no more than `to_string` gives.
#[derive(Debug)]
pub enum Error {
    InternalServerError(String),
    DatabaseError(String),
    Forbidden(String),
    NotFound(String),
    BadRequest(String),
}

/// What the client is told of an error.
pub open spec fn error_text(error: Error) -> Seq<char> {
    match error {
        Error::InternalServerError(_) => "Internal Server Error"@,
        Error::DatabaseError(_) => "Database Error"@,
        Error::Forbidden(reason) => "Forbidden: "@ + reason@,
        Error::NotFound(what) => "Not Found: "@ + what@,
        Error::BadRequest(_) => "Bad Request (check request params)"@,
    }
}

/// The HTTP status that an error is answered with.
pub open spec fn error_status(error: Error) -> u16 {
    match error {
        Error::InternalServerError(_) => 500,
        Error::DatabaseError(_) => 500,
        Error::Forbidden(_) => 403,
        Error::NotFound(_) => 404,
        Error::BadRequest(_) => 400,
    }
}

impl Error {
    /// What the client is told: the kind of the error, and the reason where
    /// it gives nothing away.
    pub fn to_string(&self) -> (text: String)
        ensures
            text@ == error_text(*self),
    {
        match self {
            Error::InternalServerError(_) => "Internal Server Error".to_owned(),
            Error::DatabaseError(_) => "Database Error".to_owned(),
            Error::Forbidden(reason) => "Forbidden: ".to_owned().concat(reason.as_str()),
            Error::NotFound(what) => "Not Found: ".to_owned().concat(what.as_str()),
            Error::BadRequest(_) => "Bad Request (check request params)".to_owned(),
        }
    }

    /// The HTTP status of the response.
    pub fn status(&self) -> (code: u16)
        ensures
            code == error_status(*self),
    {
        match self {
            Error::InternalServerError(_) => 500,
            Error::DatabaseError(_) => 500,
            Error::Forbidden(_) => 403,
            Error::NotFound(_) => 404,
            Error::BadRequest(_) => 400,
        }
    }
}

/// Wraps the text of a database error.
pub fn map_db_error<E: std::fmt::Display>(err: E) -> (error: Error)
    ensures
        match error {
            Error::DatabaseError(text) => vstd::string::to_string_from_display_ensures::<E>(
                &err,
                text,
            ),
            _ => false,
        },
{
    Error::DatabaseError(err.to_string())
}

} // verus!
