//! Record batches: the engine's columnar container, and what this library
//! assumes about it.
//!
//! A batch is opaque to the verifier. Its contents are known only through
//! [`batch_columns`], and the functions of this file that call into the engine
//! are believed, not proved.

use super::schema::{DataType, FieldView, Schema};
use datafusion::arrow::array::{ArrayRef, AsArray, Int64Array, RecordBatch, StringArray};
use datafusion::arrow::datatypes as arrow;
use datafusion::arrow::datatypes::Int64Type;
use datafusion::arrow::error::ArrowError;
use datafusion::error::DataFusionError;
use datafusion::prelude::{DataFrame, SessionContext};
use std::sync::Arc;
use vstd::prelude::*;
use vstd::utf8::encode_utf8;

verus! {

/// `datafusion::prelude::SessionContext`, carried through as an opaque value.
#[verifier::external_type_specification]
#[verifier::external_body]
pub struct ExSessionContext(SessionContext);

/// `datafusion::prelude::DataFrame`, carried through as an opaque value.
#[verifier::external_type_specification]
#[verifier::external_body]
pub struct ExDataFrame(DataFrame);

/// A `datafusion::arrow::array::RecordBatch`. Callers that receive batches
/// from the engine wrap them in this type; the verifier never looks inside.
#[verifier::external_body]
#[derive(Debug)]
pub struct Batch {
    pub inner: RecordBatch,
}

/// One column as plain vectors, before it enters a batch.
#[derive(Debug)]
pub enum Column {
    Utf8(Vec<Option<String>>),
    Int64(Vec<Option<i64>>),
}

/// What a column of a batch holds. `Other` stands for every array that is
/// neither text with 32-bit offsets nor 64-bit integers.
#[verifier::ext_equal]
pub enum ColumnView {
    Utf8(Seq<Option<Seq<char>>>),
    Int64(Seq<Option<i64>>),
    Other,
}

impl DeepView for Column {
    type V = ColumnView;

    open spec fn deep_view(&self) -> ColumnView {
        match self {
            Column::Utf8(texts) => ColumnView::Utf8(texts.deep_view()),
            Column::Int64(numbers) => ColumnView::Int64(numbers@),
        }
    }
}

/// The largest total number of bytes that the texts of one column may have:
/// a text column addresses its bytes with 32-bit signed offsets.
pub const MAX_TEXT_BYTES: usize = 2147483647;

/// The number of bytes of a nullable text in UTF-8; an absent text has none.
pub open spec fn text_len(text: Option<Seq<char>>) -> nat {
    match text {
        Some(chars) => encode_utf8(chars).len(),
        None => 0,
    }
}

/// The total number of bytes of the texts of a column.
pub open spec fn text_bytes(texts: Seq<Option<Seq<char>>>) -> nat
    decreases texts.len(),
{
    if texts.len() == 0 {
        0
    } else {
        text_bytes(texts.drop_last()) + text_len(texts.last())
    }
}

impl ColumnView {
    /// The number of values of a text or integer column. Of any other column
    /// the model knows no values.
    pub open spec fn len(self) -> nat {
        match self {
            ColumnView::Utf8(texts) => texts.len(),
            ColumnView::Int64(numbers) => numbers.len(),
            ColumnView::Other => 0,
        }
    }

    /// The type of a text or integer column; `None` for any other column.
    pub open spec fn data_type(self) -> Option<DataType> {
        match self {
            ColumnView::Utf8(_) => Some(DataType::Utf8),
            ColumnView::Int64(_) => Some(DataType::Int64),
            ColumnView::Other => None,
        }
    }

    /// Whether some value of the column is absent.
    pub open spec fn has_null(self) -> bool {
        match self {
            ColumnView::Utf8(texts) => exists|i: int| 0 <= i < texts.len() && texts[i] is None,
            ColumnView::Int64(numbers) => exists|i: int|
                0 <= i < numbers.len() && numbers[i] is None,
            ColumnView::Other => false,
        }
    }

    /// Whether the column's bytes can be addressed by a text array.
    pub open spec fn fits_offsets(self) -> bool {
        self matches ColumnView::Utf8(texts) ==> text_bytes(texts) <= MAX_TEXT_BYTES
    }
}

/// The condition under which a batch can be made of `columns` under the
/// schema `fields`: one column per field and at least one, each of its field's
/// type, all of one length, and no absent value where the field forbids it.
pub open spec fn batch_accepts(fields: Seq<FieldView>, columns: Seq<ColumnView>) -> bool {
    &&& columns.len() > 0
    &&& fields.len() == columns.len()
    &&& forall|i: int|
        0 <= i < columns.len() ==> {
            &&& (#[trigger] columns[i]).data_type() == Some(fields[i].data_type)
            &&& columns[i].len() == columns[0].len()
            &&& (fields[i].nullable || !columns[i].has_null())
        }
}

/// The columns that a batch holds, in order.
pub uninterp spec fn batch_columns(batch: Batch) -> Seq<ColumnView>;

/// `RecordBatch::try_new`, on arrays made by `StringArray::from` and
/// `Int64Array::from` and a schema made by `Schema::new` of `Field::new`.
///
/// Believed: the call succeeds exactly when [`batch_accepts`] holds, and the
/// batch then holds the given columns unchanged. A text column whose bytes
/// exceed [`MAX_TEXT_BYTES`] would make `StringArray::from` panic, so it is
/// not admitted.
#[verifier::external_body]
pub(crate) fn new_record_batch(schema: &Schema, columns: Vec<Column>) -> (made: Result<
    Batch,
    ArrowError,
>)
    requires
        forall|i: int| 0 <= i < columns.len() ==> (#[trigger] columns[i]).deep_view().fits_offsets(),
    ensures
        made is Ok <==> batch_accepts(schema@, columns.deep_view()),
        made matches Ok(batch) ==> batch_columns(batch) == columns.deep_view(),
{
    let fields: Vec<arrow::Field> = schema.fields.iter().map(|field| {
        let data_type = match field.data_type {
            DataType::Utf8 => arrow::DataType::Utf8,
            DataType::Int64 => arrow::DataType::Int64,
        };
        arrow::Field::new(&field.name, data_type, field.nullable)
    }).collect();
    let arrays: Vec<ArrayRef> = columns.into_iter().map(|column| match column {
        Column::Utf8(texts) => Arc::new(StringArray::from(texts)) as ArrayRef,
        Column::Int64(numbers) => Arc::new(Int64Array::from(numbers)) as ArrayRef,
    }).collect();
    RecordBatch::try_new(Arc::new(arrow::Schema::new(fields)), arrays).map(|inner| Batch { inner })
}

/// `RecordBatch::num_columns`.
///
/// Believed: it returns how many columns the batch holds.
#[verifier::external_body]
pub(crate) fn num_columns(batch: &Batch) -> (count: usize)
    ensures
        count == batch_columns(*batch).len(),
{
    batch.inner.num_columns()
}

/// `RecordBatch::column` with `AsArray::as_string_opt::<i32>`, read out through
/// the array's iterator.
///
/// Believed: a text column yields its values in order, absent ones as `None`;
/// any other column yields `None` as a whole.
#[verifier::external_body]
pub(crate) fn utf8_column(batch: &Batch, index: usize) -> (values: Option<Vec<Option<String>>>)
    requires
        index < batch_columns(*batch).len(),
    ensures
        match values {
            Some(texts) => batch_columns(*batch)[index as int] == ColumnView::Utf8(
                texts.deep_view(),
            ),
            None => !(batch_columns(*batch)[index as int] is Utf8),
        },
{
    let array = batch.inner.column(index).as_string_opt::<i32>();
    array.map(|texts| texts.iter().map(|text| text.map(|chars| chars.to_string())).collect())
}

/// `RecordBatch::column` with `AsArray::as_primitive_opt::<Int64Type>`, read
/// out through the array's iterator.
///
/// Believed: an integer column yields its values in order, absent ones as
/// `None`; any other column yields `None` as a whole.
#[verifier::external_body]
pub(crate) fn int64_column(batch: &Batch, index: usize) -> (values: Option<Vec<Option<i64>>>)
    requires
        index < batch_columns(*batch).len(),
    ensures
        match values {
            Some(numbers) => batch_columns(*batch)[index as int] == ColumnView::Int64(numbers@),
            None => !(batch_columns(*batch)[index as int] is Int64),
        },
{
    let array = batch.inner.column(index).as_primitive_opt::<Int64Type>();
    array.map(|numbers| numbers.iter().collect())
}

/// The columns of the batch that a frame reads, for a frame that reads one
/// batch held in memory.
pub uninterp spec fn frame_source(frame: DataFrame) -> Seq<ColumnView>;

/// `SessionContext::read_batch`.
///
/// Believed: where the call succeeds, the frame reads a table in memory that
/// is made of the given batch and of nothing else. Nothing is claimed of when
/// it succeeds, nor of the error.
#[verifier::external_body]
pub(crate) fn read_batch(ctx: &SessionContext, batch: Batch) -> (frame: Result<
    DataFrame,
    DataFusionError,
>)
    ensures
        frame matches Ok(made) ==> frame_source(made) == batch_columns(batch),
{
    ctx.read_batch(batch.inner)
}

} // verus!
