use cloudwatch_viewer_web_api::logging_table::error::LoggingTableError;
use cloudwatch_viewer_web_api::utils::registry::{engine_outcome, register_logging_table};
use datafusion::error::DataFusionError;
use datafusion::logical_expr::{lit, Expr, LogicalPlan, LogicalPlanBuilder, Subquery};
use datafusion::prelude::SessionContext;
use std::sync::Arc;

fn one_row(columns: Vec<Expr>) -> LogicalPlan {
    LogicalPlanBuilder::empty(true).project(columns).unwrap().build().unwrap()
}

fn scalar_subquery_of_two_columns() -> LogicalPlan {
    let inner = one_row(vec![lit(1i64).alias("a"), lit(2i64).alias("b")]);
    let subquery = Subquery { subquery: Arc::new(inner), outer_ref_columns: vec![] };
    one_row(vec![Expr::ScalarSubquery(subquery).alias("x")])
}

#[test]
fn engine_outcome_passes_a_value_on() {
    assert_eq!(engine_outcome(Ok(5)).unwrap(), 5);
    assert_eq!(engine_outcome(Ok("text".to_string())).unwrap(), "text");
    assert!(engine_outcome(Ok(())).is_ok());
}

#[test]
fn engine_outcome_carries_the_refusal() {
    let refusal = DataFusionError::Plan("no such table".to_string());
    match engine_outcome::<u8>(Err(refusal)) {
        Err(LoggingTableError::DataFusionError(DataFusionError::Plan(text))) => {
            assert_eq!(text, "no such table")
        }
        other => panic!("expected the engine's refusal, got {:?}", other),
    }
}

#[test]
fn register_logging_table_makes_the_plan_known_under_the_name() {
    let ctx = SessionContext::new();
    assert!(!ctx.table_exist("numbers").unwrap());
    let plan = one_row(vec![lit(7i64).alias("n")]);
    register_logging_table(&ctx, plan, "numbers").unwrap();
    assert!(ctx.table_exist("numbers").unwrap());
    assert!(!ctx.table_exist("other").unwrap());
}

#[test]
fn register_logging_table_fails_where_no_view_can_be_made_of_the_plan() {
    let ctx = SessionContext::new();
    match register_logging_table(&ctx, scalar_subquery_of_two_columns(), "broken") {
        Err(LoggingTableError::DataFusionError(_)) => {}
        other => panic!("expected the engine's refusal, got {:?}", other),
    }
    assert!(!ctx.table_exist("broken").unwrap());
}

#[test]
fn register_logging_table_fails_where_the_name_is_taken() {
    let ctx = SessionContext::new();
    register_logging_table(&ctx, one_row(vec![lit(1i64).alias("n")]), "taken").unwrap();
    match register_logging_table(&ctx, one_row(vec![lit(2i64).alias("n")]), "taken") {
        Err(LoggingTableError::DataFusionError(_)) => {}
        other => panic!("expected the engine's refusal, got {:?}", other),
    }
    assert!(ctx.table_exist("taken").unwrap());
}
