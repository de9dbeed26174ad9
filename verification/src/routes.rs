//! The decisions of the request handlers.

pub mod query;

pub use self::query::{post_query, QueryAction, QueryEvent, Request, Response};
