//! Sort expressions, scan plans and the inputs of physical expressions.

use std::sync::Arc;

use arrow::datatypes::Schema;
use arrow::record_batch::RecordBatch;
use datafusion::error::DataFusionError;
use datafusion::execution::context::ExecutionProps;
use datafusion::logical_plan::{DFSchema, Expr, LogicalPlan, LogicalPlanBuilder};
use vstd::prelude::*;

use crate::query::planner::{
    batch_schema, built_plan, column_names, columns_distinct, first_occurrence, logical_schema,
    memory_scan, physical_col, plan_batches, plan_columns, to_logical_schema, Column,
};

verus! {

/// How the values of a column are sorted.
#[derive(Debug, Clone, Copy, PartialEq, Eq, Structural)]
pub struct SortOptions {
    pub descending: bool,
    pub nulls_first: bool,
}

/// The columns that data is sorted by, the most significant first, and how each
/// is sorted.
#[derive(Debug, Clone)]
pub struct SortKey {
    pub columns: Vec<(String, SortOptions)>,
}

impl View for SortKey {
    type V = Seq<(Seq<char>, SortOptions)>;

    open spec fn view(&self) -> Seq<(Seq<char>, SortOptions)> {
        self.columns@.map_values(|c: (String, SortOptions)| (c.0@, c.1))
    }
}

/// One column to sort by.
#[derive(Debug, Clone, PartialEq, Eq)]
pub struct SortExpr {
    pub expr: Column,
    pub options: SortOptions,
}

/// The columns of a primary key sort in ascending order, with nulls last.
pub open spec fn pk_options() -> SortOptions {
    SortOptions { descending: false, nulls_first: false }
}

/// The columns of a primary key, each with the options of a primary key.
pub open spec fn pk_sort_key(key_columns: Seq<&str>) -> Seq<(Seq<char>, SortOptions)> {
    key_columns.map_values(|c: &str| (c@, pk_options()))
}

/// `exprs` sorts by the columns of `key`, in their order and with their
/// options. Each refers to the first column of that name.
pub open spec fn sorts_by(
    names: Seq<Seq<char>>,
    key: Seq<(Seq<char>, SortOptions)>,
    exprs: Seq<SortExpr>,
) -> bool {
    &&& exprs.len() == key.len()
    &&& forall|i: int|
        #![trigger key[i]]
        #![trigger exprs[i]]
        0 <= i < key.len() ==> {
            &&& exprs[i].expr.name@ == key[i].0
            &&& first_occurrence(names, key[i].0, exprs[i].expr.index as int)
            &&& exprs[i].options == key[i].1
        }
}

/// Every column of `key` is among `names`.
pub open spec fn key_in(names: Seq<Seq<char>>, key: Seq<(Seq<char>, SortOptions)>) -> bool {
    forall|i: int| 0 <= i < key.len() ==> names.contains((#[trigger] key[i]).0)
}

/// `name` is the first column of `key` that is not among `names`.
pub open spec fn first_missing(
    names: Seq<Seq<char>>,
    key: Seq<(Seq<char>, SortOptions)>,
    name: Seq<char>,
) -> bool {
    exists|i: int|
        {
            &&& 0 <= i < key.len()
            &&& (#[trigger] key[i]).0 == name
            &&& !names.contains(name)
            &&& key_in(names, key.take(i))
        }
}

/// Creates a logical plan that produces the record batch, with all its columns.
///
/// There is none exactly if two columns have the same name.
pub fn make_scan_plan(batch: RecordBatch) -> (plan: Result<LogicalPlan, DataFusionError>)
    ensures
        plan is Ok <==> columns_distinct(batch_schema(batch)),
        plan == match memory_scan(seq![seq![batch]], batch_schema(batch), None) {
            Ok(builder) => Ok(built_plan(builder)),
            Err(e) => Err(e),
        },
        plan matches Ok(p) ==> {
            &&& plan_columns(p) == column_names(batch_schema(batch))
            &&& plan_batches(p) == seq![seq![batch]]
        },
{
    let schema = batch.schema();
    let ghost whole = batch;
    let partitions: Vec<Vec<RecordBatch>> = vec![vec![batch]];
    // scan all columns
    let projection: Option<Vec<usize>> = None;
    proof {
        assert(partitions@[0]@ =~= seq![whole]);
        assert(partitions@.map_values(|p: Vec<RecordBatch>| p@) =~= seq![seq![whole]]);
    }
    match LogicalPlanBuilder::scan_memory(partitions, schema, projection) {
        Ok(builder) => builder.build(),
        Err(e) => Err(e),
    }
}

/// Sort expressions for the first `i` columns of a key, and one for the next
/// column, sort by the first `i + 1` columns.
proof fn lemma_sorts_by_one_more(
    names: Seq<Seq<char>>,
    key: Seq<(Seq<char>, SortOptions)>,
    i: int,
    exprs: Seq<SortExpr>,
    next: SortExpr,
)
    requires
        0 <= i < key.len(),
        sorts_by(names, key.take(i), exprs),
        next.expr.name@ == key[i].0,
        first_occurrence(names, key[i].0, next.expr.index as int),
        next.options == key[i].1,
    ensures
        sorts_by(names, key.take(i + 1), exprs.push(next)),
{
    let longer = key.take(i + 1);
    assert forall|k: int| 0 <= k < longer.len() implies {
        &&& (#[trigger] exprs.push(next)[k]).expr.name@ == longer[k].0
        &&& first_occurrence(names, longer[k].0, exprs.push(next)[k].expr.index as int)
        &&& exprs.push(next)[k].options == longer[k].1
    } by {
        if k < i {
            assert(key.take(i)[k] == longer[k]);
            assert(exprs[k] == exprs.push(next)[k]);
        }
    }
}

/// If the first `i` columns of a key are among the names, and the next one is,
/// then the first `i + 1` columns are.
proof fn lemma_key_in_one_more(names: Seq<Seq<char>>, key: Seq<(Seq<char>, SortOptions)>, i: int)
    requires
        0 <= i < key.len(),
        key_in(names, key.take(i)),
        names.contains(key[i].0),
    ensures
        key_in(names, key.take(i + 1)),
{
    let longer = key.take(i + 1);
    assert forall|k: int| 0 <= k < longer.len() implies names.contains((#[trigger] longer[k]).0) by {
        if k < i {
            assert(key.take(i)[k] == longer[k]);
        }
    }
}

/// Whether the schema has a column of that name.
fn has_column(name: &str, schema: &Schema) -> (found: bool)
    ensures
        found == column_names(*schema).contains(name@),
{
    match physical_col(name, schema) {
        Ok(column) => {
            assert(column_names(*schema)[column.index as int] == name@);
            true
        },
        Err(_) => false,
    }
}

/// Returns the primary key as expressions used for sorting data.
///
/// Every column of the key has to be in the schema.
pub fn arrow_pk_sort_exprs(key_columns: Vec<&str>, input_schema: &Schema) -> (exprs: Vec<SortExpr>)
    requires
        key_in(column_names(*input_schema), pk_sort_key(key_columns@)),
    ensures
        sorts_by(column_names(*input_schema), pk_sort_key(key_columns@), exprs@),
{
    let ghost names = column_names(*input_schema);
    let ghost key = pk_sort_key(key_columns@);
    let mut sort_exprs: Vec<SortExpr> = Vec::new();
    let mut i: usize = 0;
    while i < key_columns.len()
        invariant
            i <= key_columns.len(),
            names == column_names(*input_schema),
            key == pk_sort_key(key_columns@),
            key_in(names, key),
            sorts_by(names, key.take(i as int), sort_exprs@),
        decreases key_columns.len() - i,
    {
        assert(names.contains(key[i as int].0));
        let expr = physical_col(key_columns[i], input_schema).expect("pk in schema");
        let sort_expr = SortExpr {
            expr,
            options: SortOptions { descending: false, nulls_first: false },
        };
        proof {
            lemma_sorts_by_one_more(names, key, i as int, sort_exprs@, sort_expr);
        }
        sort_exprs.push(sort_expr);
        i += 1;
    }
    assert(key.take(i as int) =~= key);
    sort_exprs
}

/// Returns the primary key as expressions used for sorting data, or the first
/// column of the key that is not in the schema.
pub fn try_arrow_pk_sort_exprs<'a>(key_columns: Vec<&'a str>, input_schema: &Schema) -> (exprs:
    Result<Vec<SortExpr>, &'a str>)
    ensures
        match exprs {
            Ok(exprs) => sorts_by(
                column_names(*input_schema),
                pk_sort_key(key_columns@),
                exprs@,
            ),
            Err(name) => first_missing(
                column_names(*input_schema),
                pk_sort_key(key_columns@),
                name@,
            ),
        },
{
    let ghost names = column_names(*input_schema);
    let ghost key = pk_sort_key(key_columns@);
    let mut i: usize = 0;
    while i < key_columns.len()
        invariant
            i <= key_columns.len(),
            names == column_names(*input_schema),
            key == pk_sort_key(key_columns@),
            key_in(names, key.take(i as int)),
        decreases key_columns.len() - i,
    {
        if !has_column(key_columns[i], input_schema) {
            assert(key[i as int].0 == key_columns@[i as int]@);
            return Err(key_columns[i]);
        }
        assert(key_in(names, key.take(i + 1))) by {
            lemma_key_in_one_more(names, key, i as int);
        }
        i += 1;
    }
    assert(key.take(i as int) =~= key);
    Ok(arrow_pk_sort_exprs(key_columns, input_schema))
}

/// Returns the sort key as expressions used for sorting data.
///
/// Every column of the key has to be in the schema.
pub fn arrow_sort_key_exprs(sort_key: &SortKey, input_schema: &Schema) -> (exprs: Vec<SortExpr>)
    requires
        key_in(column_names(*input_schema), sort_key@),
    ensures
        sorts_by(column_names(*input_schema), sort_key@, exprs@),
{
    let ghost names = column_names(*input_schema);
    let ghost key = sort_key@;
    let mut sort_exprs: Vec<SortExpr> = Vec::new();
    let mut i: usize = 0;
    while i < sort_key.columns.len()
        invariant
            i <= sort_key.columns.len(),
            names == column_names(*input_schema),
            key == sort_key@,
            key_in(names, key),
            sorts_by(names, key.take(i as int), sort_exprs@),
        decreases sort_key.columns.len() - i,
    {
        assert(names.contains(key[i as int].0));
        let expr = physical_col(sort_key.columns[i].0.as_str(), input_schema).expect(
            "sort key column in schema",
        );
        let options = sort_key.columns[i].1;
        let sort_expr = SortExpr {
            expr,
            options: SortOptions {
                descending: options.descending,
                nulls_first: options.nulls_first,
            },
        };
        proof {
            lemma_sorts_by_one_more(names, key, i as int, sort_exprs@, sort_expr);
        }
        sort_exprs.push(sort_expr);
        i += 1;
    }
    assert(key.take(i as int) =~= key);
    sort_exprs
}

/// Returns the sort key as expressions used for sorting data, or the first
/// column of the key that is not in the schema.
pub fn try_arrow_sort_key_exprs<'a>(sort_key: &'a SortKey, input_schema: &Schema) -> (exprs: Result<
    Vec<SortExpr>,
    &'a str,
>)
    ensures
        match exprs {
            Ok(exprs) => sorts_by(column_names(*input_schema), sort_key@, exprs@),
            Err(name) => first_missing(column_names(*input_schema), sort_key@, name@),
        },
{
    let ghost names = column_names(*input_schema);
    let ghost key = sort_key@;
    let mut i: usize = 0;
    while i < sort_key.columns.len()
        invariant
            i <= sort_key.columns.len(),
            names == column_names(*input_schema),
            key == sort_key@,
            key_in(names, key.take(i as int)),
        decreases sort_key.columns.len() - i,
    {
        let name = sort_key.columns[i].0.as_str();
        if !has_column(name, input_schema) {
            assert(key[i as int].0 == name@);
            return Err(name);
        }
        assert(key_in(names, key.take(i + 1))) by {
            lemma_key_in_one_more(names, key, i as int);
        }
        i += 1;
    }
    assert(key.take(i as int) =~= key);
    Ok(arrow_sort_key_exprs(sort_key, input_schema))
}

/// What DataFusion builds a physical expression from: the four arguments of its
/// `create_physical_expr`.
///
/// The call itself is left to the caller. What it returns depends on the closures
/// of user-defined functions, and it panics on some expressions.
pub struct PhysicalExprInput {
    pub expr: Expr,
    pub logical_schema: DFSchema,
    pub physical_schema: Arc<Schema>,
    pub execution_props: ExecutionProps,
}

/// `input` is what the physical expression of `expr` over `schema` is built
/// from: the schema has to convert into the schema of a logical plan.
pub open spec fn prepares(
    schema: Schema,
    expr: Expr,
    input: Result<PhysicalExprInput, DataFusionError>,
) -> bool {
    match (logical_schema(schema), input) {
        (Ok(logical), Ok(i)) => {
            &&& i.expr == expr
            &&& i.logical_schema == logical
            &&& *i.physical_schema == schema
        },
        (Err(failure), Err(e)) => e == failure,
        _ => false,
    }
}

/// Prepares a DataFusion physical expression from its logical one, over the
/// schema of the plan that it is evaluated on.
pub fn df_physical_expr(input_schema: Arc<Schema>, expr: Expr) -> (input: Result<
    PhysicalExprInput,
    DataFusionError,
>)
    ensures
        prepares(*input_schema, expr, input),
        input is Ok <==> columns_distinct(*input_schema),
{
    df_physical_expr_from_schema_and_expr(input_schema, expr)
}

/// Prepares a DataFusion physical expression from its logical one.
pub fn df_physical_expr_from_schema_and_expr(schema: Arc<Schema>, expr: Expr) -> (input: Result<
    PhysicalExprInput,
    DataFusionError,
>)
    ensures
        prepares(*schema, expr, input),
        input is Ok <==> columns_distinct(*schema),
{
    let execution_props = ExecutionProps::new();
    match to_logical_schema(&schema) {
        Ok(logical_schema) => Ok(
            PhysicalExprInput { expr, logical_schema, physical_schema: schema, execution_props },
        ),
        Err(e) => Err(e),
    }
}

/// A sort key determines its sort expressions: two results for the same schema
/// and key name the same columns, at the same positions, with the same options.
pub proof fn sort_exprs_are_determined(
    names: Seq<Seq<char>>,
    key: Seq<(Seq<char>, SortOptions)>,
    a: Seq<SortExpr>,
    b: Seq<SortExpr>,
)
    requires
        sorts_by(names, key, a),
        sorts_by(names, key, b),
    ensures
        a.len() == b.len(),
        forall|i: int|
            0 <= i < a.len() ==> {
                &&& (#[trigger] a[i]).expr.name@ == b[i].expr.name@
                &&& a[i].expr.index == b[i].expr.index
                &&& a[i].options == b[i].options
            },
{
    assert forall|i: int| 0 <= i < a.len() implies {
        &&& (#[trigger] a[i]).expr.name@ == b[i].expr.name@
        &&& a[i].expr.index == b[i].expr.index
        &&& a[i].options == b[i].options
    } by {
        let name = key[i].0;
        let x = a[i].expr.index as int;
        let y = b[i].expr.index as int;
        assert(first_occurrence(names, name, x) && first_occurrence(names, name, y));
        if x < y {
            assert(names[x] != name);
        }
        if y < x {
            assert(names[y] != name);
        }
    }
}

/// There are sort expressions for a key exactly where none of its columns is
/// missing, so a key either has sort expressions or a first missing column.
pub proof fn a_key_sorts_or_misses_a_column(
    names: Seq<Seq<char>>,
    key: Seq<(Seq<char>, SortOptions)>,
    exprs: Seq<SortExpr>,
    missing: Seq<char>,
)
    ensures
        sorts_by(names, key, exprs) ==> key_in(names, key),
        first_missing(names, key, missing) ==> !key_in(names, key),
        !(sorts_by(names, key, exprs) && first_missing(names, key, missing)),
{
    if sorts_by(names, key, exprs) {
        assert forall|i: int| 0 <= i < key.len() implies names.contains((#[trigger] key[i]).0) by {
            assert(names[exprs[i].expr.index as int] == key[i].0);
        }
    }
}

/// Each sort expression refers to a column of the schema that has the name of
/// its key column.
pub proof fn sort_exprs_refer_to_their_columns(
    names: Seq<Seq<char>>,
    key: Seq<(Seq<char>, SortOptions)>,
    exprs: Seq<SortExpr>,
    i: int,
)
    requires
        sorts_by(names, key, exprs),
        0 <= i < key.len(),
    ensures
        exprs[i].expr.index < names.len(),
        names[exprs[i].expr.index as int] == key[i].0,
        exprs[i].expr.name@ == key[i].0,
{
    assert(first_occurrence(names, key[i].0, exprs[i].expr.index as int));
}

} // verus!
