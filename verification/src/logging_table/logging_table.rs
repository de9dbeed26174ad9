//! The row of the log table, the record batch that holds rows, and the way
//! from one to the other and back.

use super::columns::{
    lemma_of_list_to_list, lemma_rows_of_columns_of_rows, Columns, ColumnsView,
};
use super::error::LoggingTableError;
use super::record_batch::{
    batch_accepts, batch_columns, frame_source, int64_column, new_record_batch, num_columns,
    read_batch, utf8_column, Batch, ColumnView,
};
use super::schema::{DataType, Field, FieldView, Schema};
use datafusion::prelude::{DataFrame, SessionContext};
use vstd::prelude::*;

verus! {

/// What a row says: every field as a plain value, text as a sequence of
/// characters. Timestamps are milliseconds since the Unix epoch.
pub struct LogRow {
    pub log_stream_name: Option<Seq<char>>,
    pub log_creation_time: Option<i64>,
    pub first_event_timestamp: Option<i64>,
    pub last_event_timestamp: Option<i64>,
    pub last_ingestion_time: Option<i64>,
    pub timestamp: Option<i64>,
    pub message: Option<Seq<char>>,
    pub ingestion_time: Option<i64>,
}

/// One event of one log stream, flattened: four fields of the stream it came
/// from, then three fields of the event itself. Every field may be absent.
#[derive(Debug, Clone, PartialEq, Eq)]
pub struct LoggingTable {
    pub log_stream_name: Option<String>,
    pub log_creation_time: Option<i64>,
    pub first_event_timestamp: Option<i64>,
    pub last_event_timestamp: Option<i64>,
    pub last_ingestion_time: Option<i64>,
    pub timestamp: Option<i64>,
    pub message: Option<String>,
    pub ingestion_time: Option<i64>,
}

impl View for LoggingTable {
    type V = LogRow;

    open spec fn view(&self) -> LogRow {
        LogRow {
            log_stream_name: self.log_stream_name.deep_view(),
            log_creation_time: self.log_creation_time,
            first_event_timestamp: self.first_event_timestamp,
            last_event_timestamp: self.last_event_timestamp,
            last_ingestion_time: self.last_ingestion_time,
            timestamp: self.timestamp,
            message: self.message.deep_view(),
            ingestion_time: self.ingestion_time,
        }
    }
}

impl DeepView for LoggingTable {
    type V = LogRow;

    open spec fn deep_view(&self) -> LogRow {
        self@
    }
}

impl LoggingTable {
    /// A row of the given fields.
    pub fn new(
        log_stream_name: Option<String>,
        log_creation_time: Option<i64>,
        first_event_timestamp: Option<i64>,
        last_event_timestamp: Option<i64>,
        last_ingestion_time: Option<i64>,
        timestamp: Option<i64>,
        message: Option<String>,
        ingestion_time: Option<i64>,
    ) -> (row: Self)
        ensures
            row.log_stream_name == log_stream_name,
            row.log_creation_time == log_creation_time,
            row.first_event_timestamp == first_event_timestamp,
            row.last_event_timestamp == last_event_timestamp,
            row.last_ingestion_time == last_ingestion_time,
            row.timestamp == timestamp,
            row.message == message,
            row.ingestion_time == ingestion_time,
    {
        Self {
            log_stream_name,
            log_creation_time,
            first_event_timestamp,
            last_event_timestamp,
            last_ingestion_time,
            timestamp,
            message,
            ingestion_time,
        }
    }

    /// The schema of the table: eight nullable columns, text for the stream
    /// name and the message, integers for the six timestamps.
    pub open spec fn schema_fields() -> Seq<FieldView> {
        seq![
            FieldView { name: "log_stream_name"@, data_type: DataType::Utf8, nullable: true },
            FieldView { name: "log_creation_time"@, data_type: DataType::Int64, nullable: true },
            FieldView {
                name: "first_event_timestamp"@,
                data_type: DataType::Int64,
                nullable: true,
            },
            FieldView {
                name: "last_event_timestamp"@,
                data_type: DataType::Int64,
                nullable: true,
            },
            FieldView { name: "last_ingestion_time"@, data_type: DataType::Int64, nullable: true },
            FieldView { name: "timestamp"@, data_type: DataType::Int64, nullable: true },
            FieldView { name: "message"@, data_type: DataType::Utf8, nullable: true },
            FieldView { name: "ingestion_time"@, data_type: DataType::Int64, nullable: true },
        ]
    }

    /// The schema under which the table's batches are built.
    pub fn schema() -> (schema: Schema)
        ensures
            schema@ == Self::schema_fields(),
    {
        let mut fields: Vec<Field> = Vec::new();
        fields.push(Field::new("log_stream_name", DataType::Utf8, true));
        fields.push(Field::new("log_creation_time", DataType::Int64, true));
        fields.push(Field::new("first_event_timestamp", DataType::Int64, true));
        fields.push(Field::new("last_event_timestamp", DataType::Int64, true));
        fields.push(Field::new("last_ingestion_time", DataType::Int64, true));
        fields.push(Field::new("timestamp", DataType::Int64, true));
        fields.push(Field::new("message", DataType::Utf8, true));
        fields.push(Field::new("ingestion_time", DataType::Int64, true));
        Schema::new(fields)
    }

    /// Whether the rows are small enough to be held by one record batch: the
    /// stream names together, and the messages together, must not exceed the
    /// bytes that a text column can address.
    pub open spec fn fits_record_batch(records: Seq<LogRow>) -> bool {
        ColumnsView::of_rows(records).fits_offsets()
    }

    /// Tests [`Self::fits_record_batch`].
    pub fn check_fits_record_batch(records: &Vec<Self>) -> (fit: bool)
        ensures
            fit == Self::fits_record_batch(records.deep_view()),
    {
        Columns::from_rows(records).fits_offsets()
    }

    /// Builds the record batch that holds the rows: the table's eight columns
    /// in schema order, column `c` holding field `c` of every row.
    pub fn to_record_batch(records: &Vec<Self>) -> (made: Result<Batch, LoggingTableError>)
        requires
            Self::fits_record_batch(records.deep_view()),
        ensures
            made matches Ok(batch) && batch_columns(batch) == ColumnsView::of_rows(
                records.deep_view(),
            ).to_list(),
    {
        let schema = Self::schema();
        let list = Columns::from_rows(records).into_list();
        match new_record_batch(&schema, list) {
            Ok(batch) => Ok(batch),
            Err(error) => Err(LoggingTableError::ArrowError(error)),
        }
    }

    /// Builds the dataset of the rows and hands it to the engine as a frame.
    ///
    /// The frame reads the batch of [`Self::to_record_batch`] and nothing
    /// else. Building the batch cannot fail; whether the engine accepts it is
    /// the engine's decision, and its refusal is the only error.
    pub fn to_df(ctx: &SessionContext, records: &Vec<Self>) -> (made: Result<
        DataFrame,
        LoggingTableError,
    >)
        requires
            Self::fits_record_batch(records.deep_view()),
        ensures
            made matches Ok(frame) ==> frame_source(frame) == ColumnsView::of_rows(
                records.deep_view(),
            ).to_list(),
            made matches Err(error) ==> error is DataFusionError,
    {
        let batch = match Self::to_record_batch(records) {
            Ok(batch) => batch,
            Err(error) => {
                return Err(error);
            },
        };
        match read_batch(ctx, batch) {
            Ok(frame) => Ok(frame),
            Err(error) => Err(LoggingTableError::DataFusionError(error)),
        }
    }

    /// The text of the error for a batch that does not hold the table's
    /// columns.
    pub open spec fn layout_mismatch_text() -> Seq<char> {
        "record batch does not hold the columns of the log table"@
    }

    /// Whether `error` reports a batch that does not hold the table's columns.
    pub open spec fn is_layout_mismatch(error: LoggingTableError) -> bool {
        error matches LoggingTableError::UnexpectedError(text) && text@
            == Self::layout_mismatch_text()
    }

    /// Insists on a column: what was read of it, or the layout mismatch where
    /// it is not of the type that the table has at its place.
    fn required<T>(values: Option<T>) -> (found: Result<T, LoggingTableError>)
        ensures
            match values {
                Some(column) => found == Ok::<T, LoggingTableError>(column),
                None => found matches Err(error) && Self::is_layout_mismatch(error),
            },
    {
        match values {
            Some(column) => Ok(column),
            None => Err(
                LoggingTableError::UnexpectedError(
                    "record batch does not hold the columns of the log table".to_owned(),
                ),
            ),
        }
    }

    /// Reads the rows of one batch from its first eight columns.
    ///
    /// The batch must hold at least eight columns, and each of the first
    /// eight must be of the type that the schema has at its place; the names
    /// of the columns are not looked at. Otherwise the result is an
    /// unexpected error with the text [`Self::layout_mismatch_text`].
    pub fn from_record_batch(batch: &Batch) -> (read: Result<Vec<Self>, LoggingTableError>)
        ensures
            match read {
                Ok(records) => ColumnsView::of_list(batch_columns(*batch)) matches Some(columns)
                    && records.deep_view() == columns.rows(),
                Err(error) => ColumnsView::of_list(batch_columns(*batch)) is None
                    && Self::is_layout_mismatch(error),
            },
    {
        if num_columns(batch) < 8 {
            return Self::required(None);
        }
        let columns = Columns {
            log_stream_names: Self::required(utf8_column(batch, 0))?,
            log_creation_times: Self::required(int64_column(batch, 1))?,
            first_event_timestamps: Self::required(int64_column(batch, 2))?,
            last_event_timestamps: Self::required(int64_column(batch, 3))?,
            last_ingestion_times: Self::required(int64_column(batch, 4))?,
            timestamps: Self::required(int64_column(batch, 5))?,
            messages: Self::required(utf8_column(batch, 6))?,
            ingestion_times: Self::required(int64_column(batch, 7))?,
        };
        Ok(columns.to_rows())
    }

    /// The columns of each batch of a sequence.
    pub open spec fn columns_of_batches(batches: Seq<Batch>) -> Seq<Seq<ColumnView>> {
        batches.map_values(|batch: Batch| batch_columns(batch))
    }

    /// The rows of a sequence of batches, each given by its columns: the rows
    /// of the first batch, then those of the second, and so on. `None` where
    /// some batch does not hold the table's columns.
    pub open spec fn rows_of_batches(batches: Seq<Seq<ColumnView>>) -> Option<Seq<LogRow>>
        decreases batches.len(),
    {
        if batches.len() == 0 {
            Some(Seq::empty())
        } else {
            match (
                Self::rows_of_batches(batches.drop_last()),
                ColumnsView::of_list(batches.last()),
            ) {
                (Some(before), Some(columns)) => Some(before + columns.rows()),
                _ => None,
            }
        }
    }

    /// Reads the rows of the batches that a query produced: the rows of the
    /// first batch, then those of the second, and so on. One batch that does
    /// not hold the table's columns fails the whole, as
    /// [`Self::from_record_batch`] does.
    pub fn df_to_records(batches: &Vec<Batch>) -> (read: Result<Vec<Self>, LoggingTableError>)
        ensures
            match read {
                Ok(records) => Self::rows_of_batches(Self::columns_of_batches(batches@)) == Some(
                    records.deep_view(),
                ),
                Err(error) => Self::rows_of_batches(Self::columns_of_batches(batches@)) is None
                    && Self::is_layout_mismatch(error),
            },
    {
        let ghost lists = Self::columns_of_batches(batches@);
        let mut records: Vec<Self> = Vec::new();
        let mut i: usize = 0;
        while i < batches.len()
            invariant
                i <= batches.len(),
                lists == Self::columns_of_batches(batches@),
                Self::rows_of_batches(lists.take(i as int)) == Some(records.deep_view()),
            decreases batches.len() - i,
        {
            proof {
                assert(lists.take(i + 1).drop_last() =~= lists.take(i as int));
            }
            match Self::from_record_batch(&batches[i]) {
                Ok(mut more) => {
                    records.append(&mut more);
                },
                Err(error) => {
                    proof {
                        lemma_rows_of_batches_prefix(lists, i + 1);
                    }
                    return Err(error);
                },
            }
            i += 1;
        }
        proof {
            assert(lists.take(i as int) =~= lists);
        }
        Ok(records)
    }
}

/// Building and reading agree on the layout, field for field: the columns
/// that are built of any rows are accepted under the table's schema, and a
/// list of columns can be read exactly when it has at least eight columns of
/// which each of the first eight is of the type of the schema's field at its
/// place.
pub proof fn lemma_schema_matches_columns(rows: Seq<LogRow>, list: Seq<ColumnView>)
    ensures
        LoggingTable::schema_fields().len() == 8,
        batch_accepts(LoggingTable::schema_fields(), ColumnsView::of_rows(rows).to_list()),
        ColumnsView::of_list(list) is Some <==> list.len() >= 8 && forall|i: int|
            0 <= i < 8 ==> (#[trigger] list[i]).data_type() == Some(
                LoggingTable::schema_fields()[i].data_type,
            ),
{
}

/// Reading back the batch that was built from some rows gives those rows:
/// the same values, the same absent fields, the same order of fields and of
/// rows. This holds for the empty sequence too.
pub proof fn lemma_decode_inverts_build(rows: Seq<LogRow>)
    ensures
        ColumnsView::of_list(ColumnsView::of_rows(rows).to_list()) == Some(
            ColumnsView::of_rows(rows),
        ),
        ColumnsView::of_rows(rows).rows() == rows,
        LoggingTable::rows_of_batches(seq![ColumnsView::of_rows(rows).to_list()]) == Some(rows),
{
    let list = ColumnsView::of_rows(rows).to_list();
    let batches = seq![list];
    lemma_of_list_to_list(ColumnsView::of_rows(rows));
    lemma_rows_of_columns_of_rows(rows);
    assert(LoggingTable::rows_of_batches(batches.drop_last()) == Some(Seq::<LogRow>::empty()));
}

/// Where a prefix of the batches cannot be read, neither can the whole.
pub proof fn lemma_rows_of_batches_prefix(batches: Seq<Seq<ColumnView>>, n: int)
    requires
        0 <= n <= batches.len(),
        LoggingTable::rows_of_batches(batches.take(n)) is None,
    ensures
        LoggingTable::rows_of_batches(batches) is None,
    decreases batches.len(),
{
    if n == batches.len() {
        assert(batches.take(n) =~= batches);
    } else {
        assert(batches.drop_last().take(n) =~= batches.take(n));
        lemma_rows_of_batches_prefix(batches.drop_last(), n);
    }
}

} // verus!
