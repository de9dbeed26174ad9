//! The table turned on its side: one vector per field instead of one struct
//! per row. This is the shape in which rows enter and leave a record batch.

use super::logging_table::{LogRow, LoggingTable};
use super::record_batch::{text_bytes, Column, ColumnView, MAX_TEXT_BYTES};
use vstd::prelude::*;

verus! {

/// The eight columns of the table, in schema order.
#[derive(Debug, PartialEq, Eq)]
pub struct Columns {
    pub log_stream_names: Vec<Option<String>>,
    pub log_creation_times: Vec<Option<i64>>,
    pub first_event_timestamps: Vec<Option<i64>>,
    pub last_event_timestamps: Vec<Option<i64>>,
    pub last_ingestion_times: Vec<Option<i64>>,
    pub timestamps: Vec<Option<i64>>,
    pub messages: Vec<Option<String>>,
    pub ingestion_times: Vec<Option<i64>>,
}

/// What a [`Columns`] value says: each column as a sequence of plain values.
#[verifier::ext_equal]
pub struct ColumnsView {
    pub log_stream_names: Seq<Option<Seq<char>>>,
    pub log_creation_times: Seq<Option<i64>>,
    pub first_event_timestamps: Seq<Option<i64>>,
    pub last_event_timestamps: Seq<Option<i64>>,
    pub last_ingestion_times: Seq<Option<i64>>,
    pub timestamps: Seq<Option<i64>>,
    pub messages: Seq<Option<Seq<char>>>,
    pub ingestion_times: Seq<Option<i64>>,
}

impl View for Columns {
    type V = ColumnsView;

    open spec fn view(&self) -> ColumnsView {
        ColumnsView {
            log_stream_names: self.log_stream_names.deep_view(),
            log_creation_times: self.log_creation_times@,
            first_event_timestamps: self.first_event_timestamps@,
            last_event_timestamps: self.last_event_timestamps@,
            last_ingestion_times: self.last_ingestion_times@,
            timestamps: self.timestamps@,
            messages: self.messages.deep_view(),
            ingestion_times: self.ingestion_times@,
        }
    }
}

/// The smaller of two lengths.
pub open spec fn shorter(a: nat, b: nat) -> nat {
    if a <= b {
        a
    } else {
        b
    }
}

impl ColumnsView {
    /// The columns of a sequence of rows: column `c` holds, at index `i`, field
    /// `c` of row `i`.
    pub open spec fn of_rows(rows: Seq<LogRow>) -> ColumnsView {
        ColumnsView {
            log_stream_names: rows.map_values(|row: LogRow| row.log_stream_name),
            log_creation_times: rows.map_values(|row: LogRow| row.log_creation_time),
            first_event_timestamps: rows.map_values(|row: LogRow| row.first_event_timestamp),
            last_event_timestamps: rows.map_values(|row: LogRow| row.last_event_timestamp),
            last_ingestion_times: rows.map_values(|row: LogRow| row.last_ingestion_time),
            timestamps: rows.map_values(|row: LogRow| row.timestamp),
            messages: rows.map_values(|row: LogRow| row.message),
            ingestion_times: rows.map_values(|row: LogRow| row.ingestion_time),
        }
    }

    /// The number of complete rows: the length of the shortest column.
    pub open spec fn height(self) -> nat {
        shorter(
            shorter(
                shorter(self.log_stream_names.len(), self.log_creation_times.len()),
                shorter(self.first_event_timestamps.len(), self.last_event_timestamps.len()),
            ),
            shorter(
                shorter(self.last_ingestion_times.len(), self.timestamps.len()),
                shorter(self.messages.len(), self.ingestion_times.len()),
            ),
        )
    }

    /// Whether all eight columns have the same length.
    pub open spec fn aligned(self) -> bool {
        &&& self.log_creation_times.len() == self.log_stream_names.len()
        &&& self.first_event_timestamps.len() == self.log_stream_names.len()
        &&& self.last_event_timestamps.len() == self.log_stream_names.len()
        &&& self.last_ingestion_times.len() == self.log_stream_names.len()
        &&& self.timestamps.len() == self.log_stream_names.len()
        &&& self.messages.len() == self.log_stream_names.len()
        &&& self.ingestion_times.len() == self.log_stream_names.len()
    }

    /// Row `i`, read across the columns.
    pub open spec fn row(self, i: int) -> LogRow {
        LogRow {
            log_stream_name: self.log_stream_names[i],
            log_creation_time: self.log_creation_times[i],
            first_event_timestamp: self.first_event_timestamps[i],
            last_event_timestamp: self.last_event_timestamps[i],
            last_ingestion_time: self.last_ingestion_times[i],
            timestamp: self.timestamps[i],
            message: self.messages[i],
            ingestion_time: self.ingestion_times[i],
        }
    }

    /// The rows that the columns hold, in order. Where the columns differ in
    /// length, the rows end with the shortest column.
    pub open spec fn rows(self) -> Seq<LogRow> {
        Seq::new(self.height(), |i: int| self.row(i))
    }

    /// The columns as a batch holds them: in schema order, each under its type.
    pub open spec fn to_list(self) -> Seq<ColumnView> {
        seq![
            ColumnView::Utf8(self.log_stream_names),
            ColumnView::Int64(self.log_creation_times),
            ColumnView::Int64(self.first_event_timestamps),
            ColumnView::Int64(self.last_event_timestamps),
            ColumnView::Int64(self.last_ingestion_times),
            ColumnView::Int64(self.timestamps),
            ColumnView::Utf8(self.messages),
            ColumnView::Int64(self.ingestion_times),
        ]
    }

    /// Reads the table's columns from the first eight columns of a list. The
    /// result is `None` where the list is shorter or one of the eight is not
    /// of its field's type; what follows the eighth column is ignored.
    pub open spec fn of_list(list: Seq<ColumnView>) -> Option<ColumnsView> {
        if list.len() >= 8 && list[0] is Utf8 && list[1] is Int64 && list[2] is Int64
            && list[3] is Int64 && list[4] is Int64 && list[5] is Int64 && list[6] is Utf8
            && list[7] is Int64 {
            Some(
                ColumnsView {
                    log_stream_names: list[0]->Utf8_0,
                    log_creation_times: list[1]->Int64_0,
                    first_event_timestamps: list[2]->Int64_0,
                    last_event_timestamps: list[3]->Int64_0,
                    last_ingestion_times: list[4]->Int64_0,
                    timestamps: list[5]->Int64_0,
                    messages: list[6]->Utf8_0,
                    ingestion_times: list[7]->Int64_0,
                },
            )
        } else {
            None
        }
    }

    /// Whether both text columns can be addressed by a text array.
    pub open spec fn fits_offsets(self) -> bool {
        &&& text_bytes(self.log_stream_names) <= MAX_TEXT_BYTES
        &&& text_bytes(self.messages) <= MAX_TEXT_BYTES
    }
}

/// Turning rows into columns and back gives the rows again: same values, same
/// absent fields, same order. This holds for the empty sequence too.
pub proof fn lemma_rows_of_columns_of_rows(rows: Seq<LogRow>)
    ensures
        ColumnsView::of_rows(rows).aligned(),
        ColumnsView::of_rows(rows).height() == rows.len(),
        ColumnsView::of_rows(rows).rows() == rows,
{
}

/// Aligned columns are exactly the columns of the rows they hold.
pub proof fn lemma_columns_of_rows_of_columns(columns: ColumnsView)
    requires
        columns.aligned(),
    ensures
        ColumnsView::of_rows(columns.rows()) == columns,
{
}

/// Listing columns and reading the list back gives the columns again.
pub proof fn lemma_of_list_to_list(columns: ColumnsView)
    ensures
        ColumnsView::of_list(columns.to_list()) == Some(columns),
{
}

/// A prefix of a text column has no more bytes than the column.
pub proof fn lemma_text_bytes_prefix(texts: Seq<Option<Seq<char>>>, n: int)
    requires
        0 <= n <= texts.len(),
    ensures
        text_bytes(texts.take(n)) <= text_bytes(texts),
    decreases texts.len(),
{
    if n == texts.len() {
        assert(texts.take(n) =~= texts);
    } else {
        assert(texts.drop_last().take(n) =~= texts.take(n));
        lemma_text_bytes_prefix(texts.drop_last(), n);
    }
}

fn text_bytes_fit(texts: &Vec<Option<String>>) -> (fit: bool)
    ensures
        fit == (text_bytes(texts.deep_view()) <= MAX_TEXT_BYTES),
{
    let ghost view = texts.deep_view();
    let mut total: usize = 0;
    let mut i: usize = 0;
    while i < texts.len()
        invariant
            i <= texts.len(),
            view == texts.deep_view(),
            total == text_bytes(view.take(i as int)),
            total <= MAX_TEXT_BYTES,
        decreases texts.len() - i,
    {
        let len: usize = match &texts[i] {
            Some(text) => text.as_str().as_bytes().len(),
            None => 0,
        };
        proof {
            assert(view.take(i + 1).drop_last() =~= view.take(i as int));
        }
        if len > MAX_TEXT_BYTES - total {
            proof {
                lemma_text_bytes_prefix(view, i + 1);
            }
            return false;
        }
        total = total + len;
        i += 1;
    }
    proof {
        assert(view.take(i as int) =~= view);
    }
    true
}

fn clone_text(field: &Option<String>) -> (copy: Option<String>)
    ensures
        copy == *field,
{
    match field {
        Some(text) => Some(text.clone()),
        None => None,
    }
}

fn min_len(a: usize, b: usize) -> (m: usize)
    ensures
        m == shorter(a as nat, b as nat),
{
    if a <= b {
        a
    } else {
        b
    }
}

impl Columns {
    /// Splits rows into columns.
    pub fn from_rows(records: &Vec<LoggingTable>) -> (columns: Columns)
        ensures
            columns@ == ColumnsView::of_rows(records.deep_view()),
            columns@.aligned(),
    {
        let mut log_stream_names: Vec<Option<String>> = Vec::new();
        let mut log_creation_times: Vec<Option<i64>> = Vec::new();
        let mut first_event_timestamps: Vec<Option<i64>> = Vec::new();
        let mut last_event_timestamps: Vec<Option<i64>> = Vec::new();
        let mut last_ingestion_times: Vec<Option<i64>> = Vec::new();
        let mut timestamps: Vec<Option<i64>> = Vec::new();
        let mut messages: Vec<Option<String>> = Vec::new();
        let mut ingestion_times: Vec<Option<i64>> = Vec::new();

        let mut i: usize = 0;
        while i < records.len()
            invariant
                i <= records.len(),
                log_stream_names.len() == i,
                log_creation_times.len() == i,
                first_event_timestamps.len() == i,
                last_event_timestamps.len() == i,
                last_ingestion_times.len() == i,
                timestamps.len() == i,
                messages.len() == i,
                ingestion_times.len() == i,
                forall|j: int| 0 <= j < i ==> log_stream_names[j] == records[j].log_stream_name,
                forall|j: int| 0 <= j < i ==> log_creation_times[j] == records[j].log_creation_time,
                forall|j: int|
                    0 <= j < i ==> first_event_timestamps[j] == records[j].first_event_timestamp,
                forall|j: int|
                    0 <= j < i ==> last_event_timestamps[j] == records[j].last_event_timestamp,
                forall|j: int|
                    0 <= j < i ==> last_ingestion_times[j] == records[j].last_ingestion_time,
                forall|j: int| 0 <= j < i ==> timestamps[j] == records[j].timestamp,
                forall|j: int| 0 <= j < i ==> messages[j] == records[j].message,
                forall|j: int| 0 <= j < i ==> ingestion_times[j] == records[j].ingestion_time,
            decreases records.len() - i,
        {
            let record = &records[i];
            log_stream_names.push(clone_text(&record.log_stream_name));
            log_creation_times.push(record.log_creation_time);
            first_event_timestamps.push(record.first_event_timestamp);
            last_event_timestamps.push(record.last_event_timestamp);
            last_ingestion_times.push(record.last_ingestion_time);
            timestamps.push(record.timestamp);
            messages.push(clone_text(&record.message));
            ingestion_times.push(record.ingestion_time);
            i += 1;
        }
        let columns = Columns {
            log_stream_names,
            log_creation_times,
            first_event_timestamps,
            last_event_timestamps,
            last_ingestion_times,
            timestamps,
            messages,
            ingestion_times,
        };
        columns
    }

    /// The columns as a list for a batch, in schema order.
    pub fn into_list(self) -> (list: Vec<Column>)
        ensures
            list.deep_view() == self@.to_list(),
    {
        let mut list: Vec<Column> = Vec::new();
        list.push(Column::Utf8(self.log_stream_names));
        list.push(Column::Int64(self.log_creation_times));
        list.push(Column::Int64(self.first_event_timestamps));
        list.push(Column::Int64(self.last_event_timestamps));
        list.push(Column::Int64(self.last_ingestion_times));
        list.push(Column::Int64(self.timestamps));
        list.push(Column::Utf8(self.messages));
        list.push(Column::Int64(self.ingestion_times));
        list
    }

    /// Whether both text columns are small enough for a text array.
    pub fn fits_offsets(&self) -> (fit: bool)
        ensures
            fit == self@.fits_offsets(),
    {
        text_bytes_fit(&self.log_stream_names) && text_bytes_fit(&self.messages)
    }

    /// Joins the columns into rows, ending with the shortest column.
    pub fn to_rows(&self) -> (records: Vec<LoggingTable>)
        ensures
            records.deep_view() == self@.rows(),
    {
        let height = min_len(
            min_len(
                min_len(self.log_stream_names.len(), self.log_creation_times.len()),
                min_len(self.first_event_timestamps.len(), self.last_event_timestamps.len()),
            ),
            min_len(
                min_len(self.last_ingestion_times.len(), self.timestamps.len()),
                min_len(self.messages.len(), self.ingestion_times.len()),
            ),
        );
        let mut records: Vec<LoggingTable> = Vec::new();
        let mut i: usize = 0;
        while i < height
            invariant
                i <= height,
                height == self@.height(),
                records.len() == i,
                forall|j: int| 0 <= j < i ==> (#[trigger] records[j])@ == self@.row(j),
            decreases height - i,
        {
            let record = LoggingTable::new(
                clone_text(&self.log_stream_names[i]),
                self.log_creation_times[i],
                self.first_event_timestamps[i],
                self.last_event_timestamps[i],
                self.last_ingestion_times[i],
                self.timestamps[i],
                clone_text(&self.messages[i]),
                self.ingestion_times[i],
            );
            records.push(record);
            i += 1;
        }
        records
    }
}

} // verus!
