//! Failures of ingestion and of the tabular dataset.

use datafusion::arrow::error::ArrowError;
use datafusion::error::DataFusionError;
use vstd::prelude::*;

verus! {

/// `datafusion::arrow::error::ArrowError`, carried through as an opaque value.
#[verifier::external_type_specification]
#[verifier::external_body]
pub struct ExArrowError(ArrowError);

/// `datafusion::error::DataFusionError`, carried through as an opaque value.
#[verifier::external_type_specification]
#[verifier::external_body]
pub struct ExDataFusionError(DataFusionError);

/// Everything that can go wrong while the table is filled, built or read.
///
/// Failures of the columnar layer and of the query engine keep the engine's own
/// error value. Failures that arise outside this library (the remote log
/// source, the task runtime, the file system, the tracing setup) arrive as the
/// text of their cause.
#[derive(Debug)]
pub enum LoggingTableError {
    /// The columnar layer refused a batch.
    ArrowError(ArrowError),
    /// The remote source could not list the streams of the group.
    DescribeLogStreamsError(String),
    /// The remote source could not return the events of a stream.
    GetLogEventsError(String),
    /// The query engine refused a table, a plan or a query.
    DataFusionError(DataFusionError),
    /// A file or a socket failed.
    IoError(String),
    /// A Parquet file could not be written.
    ParquetError(String),
    /// The task of a stream did not run to its end.
    TokioJoinError(String),
    /// The log filter could not be read from the environment.
    FromEnvError(String),
    /// The log filter could not be parsed.
    ParseError(String),
    /// Anything else, by its description.
    UnexpectedError(String),
}

impl LoggingTableError {
    /// The fixed, human-readable name of each kind of failure.
    pub open spec fn message_text(self) -> Seq<char> {
        match self {
            LoggingTableError::ArrowError(_) => "Arrow error"@,
            LoggingTableError::DescribeLogStreamsError(_) => "AWS DescribeLogStreams error"@,
            LoggingTableError::GetLogEventsError(_) => "AWS GetLogEventsError error"@,
            LoggingTableError::DataFusionError(_) => "DataFusion error"@,
            LoggingTableError::IoError(_) => "IO error"@,
            LoggingTableError::ParquetError(_) => "Parquet error"@,
            LoggingTableError::TokioJoinError(_) => "TokioJoin error"@,
            LoggingTableError::FromEnvError(_) => "Tracing FromEnv error"@,
            LoggingTableError::ParseError(_) => "Tracing Parse error"@,
            LoggingTableError::UnexpectedError(_) => "Unexpected error"@,
        }
    }

    /// Renders the kind of failure; the cause itself is never part of the text.
    pub fn message(&self) -> (text: String)
        ensures
            text@ == self.message_text(),
    {
        match self {
            LoggingTableError::ArrowError(_) => "Arrow error".to_owned(),
            LoggingTableError::DescribeLogStreamsError(_) => "AWS DescribeLogStreams error".to_owned(),
            LoggingTableError::GetLogEventsError(_) => "AWS GetLogEventsError error".to_owned(),
            LoggingTableError::DataFusionError(_) => "DataFusion error".to_owned(),
            LoggingTableError::IoError(_) => "IO error".to_owned(),
            LoggingTableError::ParquetError(_) => "Parquet error".to_owned(),
            LoggingTableError::TokioJoinError(_) => "TokioJoin error".to_owned(),
            LoggingTableError::FromEnvError(_) => "Tracing FromEnv error".to_owned(),
            LoggingTableError::ParseError(_) => "Tracing Parse error".to_owned(),
            LoggingTableError::UnexpectedError(_) => "Unexpected error".to_owned(),
        }
    }
}

} // verus!
