//! The query gateway: what is done with a request, and with what the engine
//! made of it.
//!
//! The gateway does not run queries. It is told what happened and answers what
//! to do next: the caller hands it the request, runs the query if told to, and
//! hands back the rows or the failure.

use crate::error::ApiError;
use crate::logging_table::error::LoggingTableError;
use crate::logging_table::logging_table::LoggingTable;
use crate::logging_table::validator::{contains_text, query_accepted, query_validator};
use vstd::prelude::*;

verus! {

/// The body of a query request.
#[derive(Debug)]
pub struct Request {
    pub query: Option<String>,
}

/// The body of a successful response.
#[derive(Debug)]
pub struct Response {
    pub message: String,
    pub content: Option<Vec<LoggingTable>>,
}

/// The status code of a successful query.
pub const OK: u16 = 200;

/// What the gateway is told.
#[derive(Debug)]
pub enum QueryEvent {
    /// A request arrived.
    Received(Request),
    /// The query ran, and these are its rows.
    Decoded(Vec<LoggingTable>),
    /// The query could not be run, or its result could not be read.
    Failed(LoggingTableError),
}

/// What the gateway answers.
#[derive(Debug)]
pub enum QueryAction {
    /// Run this query text against the table.
    Execute(String),
    /// Answer the request with these rows, under status [`OK`].
    Respond(Response),
    /// Answer the request with this failure.
    Reject(ApiError),
}

/// The message of every successful response.
pub open spec fn success_message() -> Seq<char> {
    "Table selected"@
}

/// The gateway's rule, as a relation between what it is told and what it
/// answers.
///
/// - A request without query text, or with text that fails the safety check,
///   is rejected as an incorrect query. Otherwise the text is to be run, as it
///   was received.
/// - Rows are passed on as they are, unless there are none: an empty result is
///   rejected as such, and is never a success without content.
/// - A failure is rejected as an unexpected error that carries it.
pub open spec fn gateway_rule(event: QueryEvent, action: QueryAction) -> bool {
    match event {
        QueryEvent::Received(request) => match request.query {
            Some(text) => if query_accepted(text@) {
                action == QueryAction::Execute(text)
            } else {
                action == QueryAction::Reject(ApiError::IncorrectQuery)
            },
            None => action == QueryAction::Reject(ApiError::IncorrectQuery),
        },
        QueryEvent::Decoded(records) => if records.len() == 0 {
            action == QueryAction::Reject(ApiError::QueryResultIsEmpty)
        } else {
            action matches QueryAction::Respond(response) && response.message@
                == success_message() && response.content == Some(records)
        },
        QueryEvent::Failed(error) => action == QueryAction::Reject(
            ApiError::UnexpectedError(error),
        ),
    }
}

/// The outcomes of a request, from its arrival to its answer.
///
/// A request without query text, or with text that holds neither `select` nor
/// `SELECT`, is rejected as an incorrect query and nothing is run. A request
/// whose text holds `select` is run as it is; if the query then matches no
/// row the answer is the empty-result failure, and if it matches at least one
/// row the answer carries exactly those rows.
pub proof fn lemma_query_outcomes(
    query: Option<String>,
    records: Vec<LoggingTable>,
    on_arrival: QueryAction,
    on_rows: QueryAction,
)
    requires
        gateway_rule(QueryEvent::Received(Request { query }), on_arrival),
        gateway_rule(QueryEvent::Decoded(records), on_rows),
    ensures
        query is None ==> on_arrival == QueryAction::Reject(ApiError::IncorrectQuery),
        query matches Some(text) ==> (!query_accepted(text@) ==> on_arrival == QueryAction::Reject(
            ApiError::IncorrectQuery,
        )),
        query matches Some(text) ==> (contains_text(text@, "select"@) ==> on_arrival
            == QueryAction::Execute(text)),
        records.len() == 0 ==> on_rows == QueryAction::Reject(ApiError::QueryResultIsEmpty),
        records.len() >= 1 ==> (on_rows matches QueryAction::Respond(response) && response.content
            == Some(records)),
{
}

/// Which answer can follow which event.
///
/// A response is never empty: it follows rows only, and carries at least
/// one. The two rejections of the gateway's own making follow only its own
/// decisions: an incorrect query follows a request, an empty result follows
/// rows of which there are none. An unexpected error follows a failure, and
/// every failure is answered by one. A query is run only for a request whose
/// text passes the safety check.
pub proof fn lemma_gateway_answers(event: QueryEvent, action: QueryAction)
    requires
        gateway_rule(event, action),
    ensures
        action matches QueryAction::Respond(response) ==> (event matches QueryEvent::Decoded(
            records,
        ) && records.len() > 0 && response.content == Some(records)),
        action matches QueryAction::Execute(text) ==> (event matches QueryEvent::Received(request)
            && request.query == Some(text) && query_accepted(text@)),
        action == QueryAction::Reject(ApiError::IncorrectQuery) ==> event is Received,
        action == QueryAction::Reject(ApiError::QueryResultIsEmpty) ==> (event
            matches QueryEvent::Decoded(records) && records.len() == 0),
        (action matches QueryAction::Reject(error) && error is UnexpectedError) <==> event
            is Failed,
{
}

/// Decides the next step of a query request.
pub fn post_query(event: QueryEvent) -> (action: QueryAction)
    ensures
        gateway_rule(event, action),
{
    match event {
        QueryEvent::Received(input) => {
            match input.query {
                Some(text) => {
                    if query_validator(text.as_str()) {
                        QueryAction::Execute(text)
                    } else {
                        QueryAction::Reject(ApiError::IncorrectQuery)
                    }
                },
                None => QueryAction::Reject(ApiError::IncorrectQuery),
            }
        },
        QueryEvent::Decoded(records) => {
            if records.is_empty() {
                return QueryAction::Reject(ApiError::QueryResultIsEmpty);
            }
            let response = Response {
                message: "Table selected".to_owned(),
                content: Some(records),
            };
            QueryAction::Respond(response)
        },
        QueryEvent::Failed(error) => QueryAction::Reject(ApiError::UnexpectedError(error)),
    }
}

} // verus!
