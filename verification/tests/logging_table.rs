use cloudwatch_viewer_web_api::logging_table::columns::Columns;
use cloudwatch_viewer_web_api::logging_table::error::LoggingTableError;
use cloudwatch_viewer_web_api::logging_table::logging_table::LoggingTable;
use cloudwatch_viewer_web_api::logging_table::record_batch::{Batch, Column};
use cloudwatch_viewer_web_api::logging_table::schema::{DataType, Field, Schema};
use datafusion::arrow::array::{Array, ArrayRef, Float64Array, Int64Array, RecordBatch, StringArray};
use datafusion::arrow::datatypes as arrow;
use std::sync::Arc;

fn full_row(name: &str, base: i64, message: &str) -> LoggingTable {
    LoggingTable::new(
        Some(name.to_string()),
        Some(base),
        Some(base + 1),
        Some(base + 2),
        Some(base + 3),
        Some(base + 4),
        Some(message.to_string()),
        Some(base + 5),
    )
}

fn empty_row() -> LoggingTable {
    LoggingTable::new(None, None, None, None, None, None, None, None)
}

fn mixed_rows() -> Vec<LoggingTable> {
    vec![
        full_row("s1", 100, "first"),
        empty_row(),
        LoggingTable::new(
            Some(String::new()),
            None,
            Some(i64::MIN),
            None,
            Some(i64::MAX),
            Some(0),
            Some("héllo → wörld".to_string()),
            Some(-1),
        ),
        full_row("s2", 200, ""),
    ]
}

fn arrow_batch(columns: Vec<(&str, ArrayRef)>) -> Batch {
    let fields: Vec<arrow::Field> = columns
        .iter()
        .map(|(name, array)| arrow::Field::new(*name, array.data_type().clone(), true))
        .collect();
    let arrays: Vec<ArrayRef> = columns.into_iter().map(|(_, array)| array).collect();
    let inner = RecordBatch::try_new(Arc::new(arrow::Schema::new(fields)), arrays).unwrap();
    Batch { inner }
}

fn text(values: Vec<Option<&str>>) -> ArrayRef {
    Arc::new(StringArray::from(values))
}

fn numbers(values: Vec<Option<i64>>) -> ArrayRef {
    Arc::new(Int64Array::from(values))
}

#[test]
fn new_keeps_every_field() {
    let row = LoggingTable::new(
        Some("stream".to_string()),
        Some(1),
        Some(2),
        Some(3),
        Some(4),
        Some(5),
        Some("message".to_string()),
        Some(6),
    );
    assert_eq!(row.log_stream_name, Some("stream".to_string()));
    assert_eq!(row.log_creation_time, Some(1));
    assert_eq!(row.first_event_timestamp, Some(2));
    assert_eq!(row.last_event_timestamp, Some(3));
    assert_eq!(row.last_ingestion_time, Some(4));
    assert_eq!(row.timestamp, Some(5));
    assert_eq!(row.message, Some("message".to_string()));
    assert_eq!(row.ingestion_time, Some(6));
}

#[test]
fn new_keeps_absent_fields_absent() {
    let row = empty_row();
    assert_eq!(row.log_stream_name, None);
    assert_eq!(row.log_creation_time, None);
    assert_eq!(row.first_event_timestamp, None);
    assert_eq!(row.last_event_timestamp, None);
    assert_eq!(row.last_ingestion_time, None);
    assert_eq!(row.timestamp, None);
    assert_eq!(row.message, None);
    assert_eq!(row.ingestion_time, None);
}

#[test]
fn schema_lists_the_eight_columns_in_order() {
    let schema = LoggingTable::schema();
    let expected = [
        ("log_stream_name", DataType::Utf8),
        ("log_creation_time", DataType::Int64),
        ("first_event_timestamp", DataType::Int64),
        ("last_event_timestamp", DataType::Int64),
        ("last_ingestion_time", DataType::Int64),
        ("timestamp", DataType::Int64),
        ("message", DataType::Utf8),
        ("ingestion_time", DataType::Int64),
    ];
    assert_eq!(schema.fields.len(), 8);
    for (field, (name, data_type)) in schema.fields.iter().zip(expected.iter()) {
        assert_eq!(field.name, *name);
        assert_eq!(field.data_type, *data_type);
        assert!(field.nullable);
    }
}

#[test]
fn field_and_schema_constructors_keep_their_arguments() {
    let field = Field::new("f", DataType::Int64, false);
    assert_eq!(field.name, "f");
    assert_eq!(field.data_type, DataType::Int64);
    assert!(!field.nullable);
    let schema = Schema::new(vec![field, Field::new("g", DataType::Utf8, true)]);
    assert_eq!(schema.fields.len(), 2);
    assert_eq!(schema.fields[1].name, "g");
    assert_eq!(schema.fields[1].data_type, DataType::Utf8);
}

#[test]
fn columns_of_rows_hold_each_field() {
    let rows = vec![full_row("s1", 10, "a"), empty_row(), full_row("s2", 20, "b")];
    let columns = Columns::from_rows(&rows);
    assert_eq!(
        columns.log_stream_names,
        vec![Some("s1".to_string()), None, Some("s2".to_string())]
    );
    assert_eq!(columns.log_creation_times, vec![Some(10), None, Some(20)]);
    assert_eq!(columns.first_event_timestamps, vec![Some(11), None, Some(21)]);
    assert_eq!(columns.last_event_timestamps, vec![Some(12), None, Some(22)]);
    assert_eq!(columns.last_ingestion_times, vec![Some(13), None, Some(23)]);
    assert_eq!(columns.timestamps, vec![Some(14), None, Some(24)]);
    assert_eq!(columns.messages, vec![Some("a".to_string()), None, Some("b".to_string())]);
    assert_eq!(columns.ingestion_times, vec![Some(15), None, Some(25)]);
}

#[test]
fn rows_of_columns_of_rows_are_the_rows() {
    let rows = mixed_rows();
    assert_eq!(Columns::from_rows(&rows).to_rows(), rows);
}

#[test]
fn rows_of_columns_of_no_rows_are_no_rows() {
    let rows: Vec<LoggingTable> = Vec::new();
    let columns = Columns::from_rows(&rows);
    assert!(columns.log_stream_names.is_empty());
    assert!(columns.ingestion_times.is_empty());
    assert!(columns.to_rows().is_empty());
}

#[test]
fn rows_of_columns_end_with_the_shortest_column() {
    let columns = Columns {
        log_stream_names: vec![Some("a".to_string()), Some("b".to_string()), Some("c".to_string())],
        log_creation_times: vec![Some(1), Some(2), Some(3)],
        first_event_timestamps: vec![Some(1), Some(2), Some(3)],
        last_event_timestamps: vec![Some(1), Some(2), Some(3)],
        last_ingestion_times: vec![Some(1), Some(2), Some(3)],
        timestamps: vec![Some(7), Some(8)],
        messages: vec![Some("x".to_string()), Some("y".to_string()), Some("z".to_string())],
        ingestion_times: vec![Some(1), Some(2), Some(3)],
    };
    let rows = columns.to_rows();
    assert_eq!(rows.len(), 2);
    assert_eq!(rows[1].log_stream_name, Some("b".to_string()));
    assert_eq!(rows[1].timestamp, Some(8));
    assert_eq!(rows[1].message, Some("y".to_string()));
}

#[test]
fn columns_fit_offsets_for_ordinary_text() {
    assert!(Columns::from_rows(&mixed_rows()).fits_offsets());
    assert!(Columns::from_rows(&Vec::new()).fits_offsets());
    assert!(LoggingTable::check_fits_record_batch(&mixed_rows()));
}

#[test]
fn into_list_puts_the_columns_in_schema_order() {
    let list = Columns::from_rows(&vec![full_row("s", 1, "m")]).into_list();
    assert_eq!(list.len(), 8);
    let kinds: Vec<bool> = list.iter().map(|column| matches!(column, Column::Utf8(_))).collect();
    assert_eq!(kinds, vec![true, false, false, false, false, false, true, false]);
    match &list[6] {
        Column::Utf8(messages) => assert_eq!(messages, &vec![Some("m".to_string())]),
        other => panic!("expected text, got {:?}", other),
    }
    match &list[5] {
        Column::Int64(timestamps) => assert_eq!(timestamps, &vec![Some(5)]),
        other => panic!("expected integers, got {:?}", other),
    }
}

#[test]
fn record_batch_holds_the_rows_column_by_column() {
    let rows = vec![full_row("s1", 10, "a"), empty_row()];
    assert!(LoggingTable::check_fits_record_batch(&rows));
    let batch = LoggingTable::to_record_batch(&rows).unwrap().inner;
    assert_eq!(batch.num_columns(), 8);
    assert_eq!(batch.num_rows(), 2);
    let names = batch.column(0).as_any().downcast_ref::<StringArray>().unwrap();
    assert_eq!(names.value(0), "s1");
    assert!(names.is_null(1));
    let timestamps = batch.column(5).as_any().downcast_ref::<Int64Array>().unwrap();
    assert_eq!(timestamps.value(0), 14);
    assert!(timestamps.is_null(1));
    let messages = batch.column(6).as_any().downcast_ref::<StringArray>().unwrap();
    assert_eq!(messages.value(0), "a");
    assert!(messages.is_null(1));
    let ingestion = batch.column(7).as_any().downcast_ref::<Int64Array>().unwrap();
    assert_eq!(ingestion.value(0), 15);
}

#[test]
fn record_batch_carries_the_schema_of_the_table() {
    let rows = vec![full_row("s1", 10, "a")];
    assert!(LoggingTable::check_fits_record_batch(&rows));
    let batch = LoggingTable::to_record_batch(&rows).unwrap().inner;
    let schema = batch.schema();
    let expected = LoggingTable::schema();
    assert_eq!(schema.fields().len(), expected.fields.len());
    for (field, wanted) in schema.fields().iter().zip(expected.fields.iter()) {
        assert_eq!(field.name(), &wanted.name);
        let data_type = match wanted.data_type {
            DataType::Utf8 => arrow::DataType::Utf8,
            DataType::Int64 => arrow::DataType::Int64,
        };
        assert_eq!(field.data_type(), &data_type);
        assert_eq!(field.is_nullable(), wanted.nullable);
    }
}

#[test]
fn record_batch_round_trip_gives_the_rows_back() {
    let rows = mixed_rows();
    assert!(LoggingTable::check_fits_record_batch(&rows));
    let batch = LoggingTable::to_record_batch(&rows).unwrap();
    assert_eq!(LoggingTable::from_record_batch(&batch).unwrap(), rows);
}

#[test]
fn record_batch_round_trip_of_no_rows() {
    let rows: Vec<LoggingTable> = Vec::new();
    assert!(LoggingTable::check_fits_record_batch(&rows));
    let batch = LoggingTable::to_record_batch(&rows).unwrap();
    assert_eq!(batch.inner.num_rows(), 0);
    assert_eq!(batch.inner.num_columns(), 8);
    assert!(LoggingTable::from_record_batch(&batch).unwrap().is_empty());
    assert!(LoggingTable::df_to_records(&vec![batch]).unwrap().is_empty());
}

#[test]
fn df_to_records_reads_the_batches_in_order() {
    let first = vec![full_row("s1", 10, "a"), full_row("s1", 20, "b")];
    let second = vec![empty_row()];
    let third = vec![full_row("s2", 30, "c")];
    for rows in [&first, &second, &third] {
        assert!(LoggingTable::check_fits_record_batch(rows));
    }
    let batches = vec![
        LoggingTable::to_record_batch(&first).unwrap(),
        LoggingTable::to_record_batch(&second).unwrap(),
        LoggingTable::to_record_batch(&third).unwrap(),
    ];
    let mut expected = first.clone();
    expected.extend(second.clone());
    expected.extend(third.clone());
    assert_eq!(LoggingTable::df_to_records(&batches).unwrap(), expected);
}

#[test]
fn df_to_records_of_no_batches_is_empty() {
    assert!(LoggingTable::df_to_records(&Vec::new()).unwrap().is_empty());
}

#[test]
fn from_record_batch_reads_a_batch_made_elsewhere() {
    let batch = arrow_batch(vec![
        ("log_stream_name", text(vec![Some("s"), None])),
        ("log_creation_time", numbers(vec![Some(1), None])),
        ("first_event_timestamp", numbers(vec![None, Some(2)])),
        ("last_event_timestamp", numbers(vec![Some(3), Some(4)])),
        ("last_ingestion_time", numbers(vec![None, None])),
        ("timestamp", numbers(vec![Some(5), Some(6)])),
        ("message", text(vec![None, Some("m")])),
        ("ingestion_time", numbers(vec![Some(7), None])),
    ]);
    let rows = LoggingTable::from_record_batch(&batch).unwrap();
    assert_eq!(
        rows,
        vec![
            LoggingTable::new(Some("s".to_string()), Some(1), None, Some(3), None, Some(5), None, Some(7)),
            LoggingTable::new(None, None, Some(2), Some(4), None, Some(6), Some("m".to_string()), None),
        ]
    );
}

#[test]
fn from_record_batch_goes_by_position_not_by_name() {
    let batch = arrow_batch(vec![
        ("a", text(vec![Some("s")])),
        ("b", numbers(vec![Some(1)])),
        ("c", numbers(vec![Some(2)])),
        ("d", numbers(vec![Some(3)])),
        ("e", numbers(vec![Some(4)])),
        ("f", numbers(vec![Some(5)])),
        ("g", text(vec![Some("m")])),
        ("h", numbers(vec![Some(6)])),
    ]);
    let rows = LoggingTable::from_record_batch(&batch).unwrap();
    assert_eq!(
        rows,
        vec![LoggingTable::new(
            Some("s".to_string()),
            Some(1),
            Some(2),
            Some(3),
            Some(4),
            Some(5),
            Some("m".to_string()),
            Some(6)
        )]
    );
}

#[test]
fn from_record_batch_ignores_what_follows_the_eighth_column() {
    let batch = arrow_batch(vec![
        ("log_stream_name", text(vec![Some("s")])),
        ("log_creation_time", numbers(vec![Some(1)])),
        ("first_event_timestamp", numbers(vec![Some(2)])),
        ("last_event_timestamp", numbers(vec![Some(3)])),
        ("last_ingestion_time", numbers(vec![Some(4)])),
        ("timestamp", numbers(vec![Some(5)])),
        ("message", text(vec![Some("m")])),
        ("ingestion_time", numbers(vec![Some(6)])),
        ("extra", Arc::new(Float64Array::from(vec![1.5])) as ArrayRef),
    ]);
    let rows = LoggingTable::from_record_batch(&batch).unwrap();
    assert_eq!(rows.len(), 1);
    assert_eq!(rows[0].ingestion_time, Some(6));
}

fn assert_layout_mismatch(result: Result<Vec<LoggingTable>, LoggingTableError>) {
    match result {
        Err(LoggingTableError::UnexpectedError(text)) => {
            assert_eq!(text, "record batch does not hold the columns of the log table")
        }
        other => panic!("expected a layout mismatch, got {:?}", other),
    }
}

#[test]
fn from_record_batch_rejects_too_few_columns() {
    let batch = arrow_batch(vec![("message", text(vec![Some("m")]))]);
    assert_layout_mismatch(LoggingTable::from_record_batch(&batch));
}

#[test]
fn from_record_batch_rejects_a_column_of_another_type() {
    let batch = arrow_batch(vec![
        ("log_stream_name", text(vec![Some("s")])),
        ("log_creation_time", numbers(vec![Some(1)])),
        ("first_event_timestamp", numbers(vec![Some(2)])),
        ("last_event_timestamp", Arc::new(Float64Array::from(vec![3.0])) as ArrayRef),
        ("last_ingestion_time", numbers(vec![Some(4)])),
        ("timestamp", numbers(vec![Some(5)])),
        ("message", text(vec![Some("m")])),
        ("ingestion_time", numbers(vec![Some(6)])),
    ]);
    assert_layout_mismatch(LoggingTable::from_record_batch(&batch));
}

#[test]
fn from_record_batch_rejects_text_where_integers_belong() {
    let batch = arrow_batch(vec![
        ("log_stream_name", text(vec![Some("s")])),
        ("log_creation_time", text(vec![Some("1")])),
        ("first_event_timestamp", numbers(vec![Some(2)])),
        ("last_event_timestamp", numbers(vec![Some(3)])),
        ("last_ingestion_time", numbers(vec![Some(4)])),
        ("timestamp", numbers(vec![Some(5)])),
        ("message", text(vec![Some("m")])),
        ("ingestion_time", numbers(vec![Some(6)])),
    ]);
    assert_layout_mismatch(LoggingTable::from_record_batch(&batch));
}

#[test]
fn from_record_batch_rejects_integers_where_text_belongs() {
    let batch = arrow_batch(vec![
        ("log_stream_name", numbers(vec![Some(0)])),
        ("log_creation_time", numbers(vec![Some(1)])),
        ("first_event_timestamp", numbers(vec![Some(2)])),
        ("last_event_timestamp", numbers(vec![Some(3)])),
        ("last_ingestion_time", numbers(vec![Some(4)])),
        ("timestamp", numbers(vec![Some(5)])),
        ("message", text(vec![Some("m")])),
        ("ingestion_time", numbers(vec![Some(6)])),
    ]);
    assert_layout_mismatch(LoggingTable::from_record_batch(&batch));
}

#[test]
fn df_to_records_fails_when_one_batch_has_another_layout() {
    let rows = vec![full_row("s1", 10, "a")];
    assert!(LoggingTable::check_fits_record_batch(&rows));
    let batches = vec![
        LoggingTable::to_record_batch(&rows).unwrap(),
        arrow_batch(vec![("count", numbers(vec![Some(1)]))]),
    ];
    assert_layout_mismatch(LoggingTable::df_to_records(&batches));
}
