//! The row type of the log table and everything that produces or consumes it.

pub mod columns;
pub mod error;
pub mod ingestion;
pub mod logging_table;
pub mod record_batch;
pub mod schema;
pub mod validator;

pub use self::columns::{Columns, ColumnsView};
pub use self::error::LoggingTableError;
pub use self::ingestion::{plan_requests, process_log, process_logging_table};
pub use self::logging_table::{LogRow, LoggingTable};
pub use self::record_batch::Batch;
pub use self::validator::query_validator;
