//! Making the table known to the engine.

use crate::logging_table::error::LoggingTableError;
use datafusion::datasource::ViewTable;
use datafusion::error::DataFusionError;
use datafusion::logical_expr::LogicalPlan;
use datafusion::prelude::SessionContext;
use std::sync::Arc;
use vstd::prelude::*;

verus! {

/// `datafusion::logical_expr::LogicalPlan`, carried through as an opaque value.
#[verifier::external_type_specification]
#[verifier::external_body]
pub struct ExLogicalPlan(LogicalPlan);

/// `datafusion::datasource::ViewTable`, carried through as an opaque value.
#[verifier::external_type_specification]
#[verifier::external_body]
pub struct ExViewTable(ViewTable);

/// `ViewTable::try_new`, for a view without a defining statement.
///
/// Nothing is claimed of the view or of the error.
#[verifier::external_body]
fn new_view_table(plan: LogicalPlan) -> (made: Result<ViewTable, DataFusionError>)
{
    ViewTable::try_new(plan, None)
}

/// `SessionContext::register_table`. The provider that the name stood for
/// before, if any, is dropped.
///
/// Nothing is claimed of the outcome.
#[verifier::external_body]
fn register_table(ctx: &SessionContext, table_name: &str, view: ViewTable) -> (done: Result<
    (),
    DataFusionError,
>)
{
    ctx.register_table(table_name, Arc::new(view)).map(|_| ())
}

/// Registers the plan of the table's frame as a view under `table_name`, so
/// that query text can refer to it. Both of the engine's answers go through
/// [`engine_outcome`]: its first refusal is the error, and the only one.
pub fn register_logging_table(ctx: &SessionContext, plan: LogicalPlan, table_name: &str) -> (done:
    Result<(), LoggingTableError>)
    ensures
        done matches Err(error) ==> error is DataFusionError,
{
    let view = engine_outcome(new_view_table(plan))?;
    engine_outcome(register_table(ctx, table_name, view))
}

/// What the library makes of what the engine returned: a value is passed on
/// as it is, a refusal becomes the library's error that carries it.
///
/// The engine is asked twice when a table is registered: to make a view of
/// the plan, and to take the view under the name. Whether it does either is
/// the engine's decision, and the second depends on what it holds already.
pub fn engine_outcome<T>(outcome: Result<T, DataFusionError>) -> (mapped: Result<
    T,
    LoggingTableError,
>)
    ensures
        match outcome {
            Ok(value) => mapped == Ok::<T, LoggingTableError>(value),
            Err(refusal) => mapped == Err::<T, LoggingTableError>(
                LoggingTableError::DataFusionError(refusal),
            ),
        },
{
    match outcome {
        Ok(value) => Ok(value),
        Err(refusal) => Err(LoggingTableError::DataFusionError(refusal)),
    }
}

} // verus!
