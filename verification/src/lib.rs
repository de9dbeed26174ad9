//! Ingestion of remote log streams into one flat table of rows, and the
//! gateway that answers queries against that table.
//!
//! - [`logging_table`] holds the row, the way from streams and events to
//!   rows, the record batch that carries rows into the query engine and out
//!   of it, and the safety check on query text.
//! - [`routes`] holds the decisions of the query endpoint.
//! - [`error`] holds the failures that a caller can see, and how each is
//!   answered.
//! - [`utils`] holds fixed settings, the registration of the table with the
//!   engine, and the layout of what is logged.
//!
//! Nothing here reads the network, the clock or the file system. The caller
//! lists streams, fetches events, runs queries and writes the log; this
//! library decides what to fetch, what the rows are, and what to answer.

pub mod error;
pub mod logging_table;
pub mod routes;
pub mod utils;

pub use crate::error::{ApiError, ErrorResponse};
