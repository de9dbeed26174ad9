//! The failures that a caller of the query endpoint can see.

use crate::logging_table::error::LoggingTableError;
use vstd::prelude::*;

verus! {

/// The three outcomes of a request other than rows.
#[derive(Debug)]
pub enum ApiError {
    /// The query text is absent or does not pass the safety check.
    IncorrectQuery,
    /// The query ran and matched no row.
    QueryResultIsEmpty,
    /// Anything that failed below the gateway, with its cause.
    UnexpectedError(LoggingTableError),
}

/// The body of an error response.
#[derive(Debug, PartialEq, Eq)]
pub struct ErrorResponse {
    pub error: String,
}

/// The status code of a request that was malformed.
pub const BAD_REQUEST: u16 = 400;

/// The status code of a request whose target does not exist.
pub const NOT_FOUND: u16 = 404;

/// The status code of a failure on the server's side.
pub const INTERNAL_SERVER_ERROR: u16 = 500;

impl ApiError {
    /// The name of each kind of failure, as it is written to the log.
    pub open spec fn message_text(self) -> Seq<char> {
        match self {
            ApiError::IncorrectQuery => "Incorrect query"@,
            ApiError::QueryResultIsEmpty => "Query result is empty"@,
            ApiError::UnexpectedError(_) => "Unexpected error"@,
        }
    }

    /// Renders the kind of failure for the log.
    pub fn message(&self) -> (text: String)
        ensures
            text@ == self.message_text(),
    {
        match self {
            ApiError::IncorrectQuery => "Incorrect query".to_owned(),
            ApiError::QueryResultIsEmpty => "Query result is empty".to_owned(),
            ApiError::UnexpectedError(_) => "Unexpected error".to_owned(),
        }
    }

    /// The status code that answers each kind of failure.
    pub open spec fn status_code(self) -> u16 {
        match self {
            ApiError::IncorrectQuery => BAD_REQUEST,
            ApiError::QueryResultIsEmpty => NOT_FOUND,
            ApiError::UnexpectedError(_) => INTERNAL_SERVER_ERROR,
        }
    }

    /// The text that the caller is shown. It depends on the kind of failure
    /// alone: the cause of an unexpected error never reaches the caller.
    pub open spec fn response_text(self) -> Seq<char> {
        match self {
            ApiError::IncorrectQuery => "Incorrect query"@,
            ApiError::QueryResultIsEmpty => "Not found"@,
            ApiError::UnexpectedError(_) => "Unexpected error"@,
        }
    }

    /// The status code and body that answer the failure.
    pub fn into_response(&self) -> (response: (u16, ErrorResponse))
        ensures
            response.0 == self.status_code(),
            response.1.error@ == self.response_text(),
    {
        let (status, error_message) = match self {
            ApiError::IncorrectQuery => (BAD_REQUEST, "Incorrect query"),
            ApiError::QueryResultIsEmpty => (NOT_FOUND, "Not found"),
            ApiError::UnexpectedError(_) => (INTERNAL_SERVER_ERROR, "Unexpected error"),
        };
        (status, ErrorResponse { error: error_message.to_owned() })
    }
}

} // verus!
