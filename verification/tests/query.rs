use std::future::Future;
use std::sync::Arc;
use std::task::{Context, Poll, Wake};

use arrow::array::{ArrayRef, Int64Array};
use arrow::datatypes::{DataType, Field, Schema};
use arrow::record_batch::RecordBatch;
use datafusion::logical_plan::{col, lit, LogicalPlan};
use datafusion::physical_plan::planner::create_physical_expr;

use influxdb_iox::query::util::{
    arrow_pk_sort_exprs, arrow_sort_key_exprs, df_physical_expr,
    df_physical_expr_from_schema_and_expr, make_scan_plan, try_arrow_pk_sort_exprs,
    try_arrow_sort_key_exprs, SortKey, SortOptions,
};

fn schema(names: &[&str]) -> Schema {
    Schema::new(names.iter().map(|n| Field::new(n, DataType::Int64, true)).collect())
}

fn key(columns: &[(&str, bool, bool)]) -> SortKey {
    SortKey {
        columns: columns
            .iter()
            .map(|(name, descending, nulls_first)| {
                (
                    name.to_string(),
                    SortOptions { descending: *descending, nulls_first: *nulls_first },
                )
            })
            .collect(),
    }
}

#[test]
fn a_primary_key_sorts_ascending_with_nulls_last() {
    let schema = schema(&["host", "region", "time"]);
    let exprs = arrow_pk_sort_exprs(vec!["time", "host"], &schema);
    assert_eq!(exprs.len(), 2);
    assert_eq!(exprs[0].expr.name, "time");
    assert_eq!(exprs[0].expr.index, 2);
    assert_eq!(exprs[1].expr.name, "host");
    assert_eq!(exprs[1].expr.index, 0);
    for expr in &exprs {
        assert_eq!(expr.options, SortOptions { descending: false, nulls_first: false });
    }
    assert!(arrow_pk_sort_exprs(vec![], &schema).is_empty());
}

#[test]
fn a_sort_key_keeps_its_options() {
    let schema = schema(&["host", "region", "time"]);
    let key = key(&[("region", true, false), ("time", false, true), ("host", true, true)]);
    let exprs = arrow_sort_key_exprs(&key, &schema);
    let found: Vec<(&str, usize, bool, bool)> = exprs
        .iter()
        .map(|e| {
            (
                e.expr.name.as_str(),
                e.expr.index,
                e.options.descending,
                e.options.nulls_first,
            )
        })
        .collect();
    assert_eq!(
        found,
        vec![("region", 1, true, false), ("time", 2, false, true), ("host", 0, true, true)]
    );
}

#[test]
fn a_primary_key_is_a_sort_key_with_its_options() {
    let schema = schema(&["a", "b"]);
    let pk = arrow_pk_sort_exprs(vec!["b", "a"], &schema);
    let sorted =
        arrow_sort_key_exprs(&key(&[("b", false, false), ("a", false, false)]), &schema);
    assert_eq!(pk, sorted);
}

#[test]
fn a_missing_column_is_named() {
    let schema = schema(&["a", "b"]);
    assert_eq!(try_arrow_pk_sort_exprs(vec!["a", "x", "y"], &schema), Err("x"));
    let missing = key(&[("y", false, false), ("b", false, false)]);
    assert_eq!(try_arrow_sort_key_exprs(&missing, &schema), Err("y"));
    assert_eq!(
        try_arrow_pk_sort_exprs(vec!["b"], &schema).unwrap(),
        arrow_pk_sort_exprs(vec!["b"], &schema)
    );
    let there = key(&[("b", true, false)]);
    assert_eq!(try_arrow_sort_key_exprs(&there, &schema).unwrap()[0].expr.index, 1);
}

#[test]
fn the_first_column_of_a_name_is_meant() {
    let schema = schema(&["a", "b", "b"]);
    assert_eq!(arrow_pk_sort_exprs(vec!["b"], &schema)[0].expr.index, 1);
}

#[test]
fn a_batch_is_scanned_with_all_its_columns() {
    let batch = RecordBatch::new_empty(Arc::new(schema(&["a", "b"])));
    let plan = make_scan_plan(batch).unwrap();
    let names: Vec<String> = plan.schema().fields().iter().map(|f| f.name().clone()).collect();
    assert_eq!(names, vec!["a", "b"]);
    match plan {
        LogicalPlan::TableScan(scan) => {
            assert!(scan.projection.is_none());
            assert!(scan.filters.is_empty());
            assert_eq!(scan.limit, None);
            assert_eq!(scan.source.schema().fields().len(), 2);
        }
        _ => panic!("not a scan"),
    }
}

struct Idle;

impl Wake for Idle {
    fn wake(self: Arc<Self>) {}
}

/// The outcome of a future that has nothing to wait for.
fn at_once<T>(future: impl Future<Output = T>) -> T {
    let mut future = Box::pin(future);
    match future.as_mut().poll(&mut Context::from_waker(&Arc::new(Idle).into())) {
        Poll::Ready(value) => value,
        Poll::Pending => panic!("the future has to wait"),
    }
}

#[test]
fn a_batch_is_scanned_with_all_its_rows() {
    let column = |values: Vec<Option<i64>>| -> ArrayRef { Arc::new(Int64Array::from(values)) };
    let batch = RecordBatch::try_new(
        Arc::new(schema(&["a", "b"])),
        vec![column(vec![Some(1), None, Some(3)]), column(vec![None, None, Some(6)])],
    )
    .unwrap();
    match make_scan_plan(batch).unwrap() {
        LogicalPlan::TableScan(scan) => {
            let exec =
                at_once(scan.source.scan(&scan.projection, &scan.filters, scan.limit)).unwrap();
            let statistics = exec.statistics();
            assert_eq!(statistics.num_rows, Some(3));
            let nulls: Vec<Option<usize>> =
                statistics.column_statistics.unwrap().iter().map(|c| c.null_count).collect();
            assert_eq!(nulls, vec![Some(1), Some(2)]);
        }
        _ => panic!("not a scan"),
    }
}

#[test]
fn a_batch_with_a_column_twice_is_not_scanned() {
    let batch = RecordBatch::new_empty(Arc::new(schema(&["a", "a"])));
    assert!(make_scan_plan(batch).is_err());
}

#[test]
fn a_physical_expression_is_prepared() {
    let schema = Arc::new(schema(&["a", "b"]));
    let expr = col("b").gt(lit(5i64));
    let input = df_physical_expr_from_schema_and_expr(Arc::clone(&schema), expr.clone()).unwrap();
    assert_eq!(input.expr, expr);
    assert!(Arc::ptr_eq(&input.physical_schema, &schema));
    assert_eq!(input.logical_schema.fields().len(), 2);
    let physical = create_physical_expr(
        &input.expr,
        &input.logical_schema,
        &input.physical_schema,
        &input.execution_props,
    )
    .unwrap();
    assert_eq!(format!("{}", physical), "b@1 > 5");

    let again = df_physical_expr(schema, expr).unwrap();
    assert_eq!(again.logical_schema, input.logical_schema);
}

#[test]
fn a_schema_with_a_column_twice_has_no_physical_expressions() {
    let schema = Arc::new(schema(&["a", "a"]));
    let failure = df_physical_expr_from_schema_and_expr(schema, col("a"));
    match failure {
        Ok(_) => panic!("the columns are ambiguous"),
        Err(e) => assert_eq!(
            format!("{}", e),
            "Error during planning: Schema contains duplicate unqualified field name 'a'"
        ),
    }
}
