//! The parts of Arrow and DataFusion that the planning helpers call, with what
//! is taken for granted of them.

use std::sync::Arc;

use arrow::datatypes::Schema;
use arrow::record_batch::RecordBatch;
use datafusion::error::DataFusionError;
use datafusion::execution::context::ExecutionProps;
use datafusion::logical_plan::{DFSchema, Expr, LogicalPlan, LogicalPlanBuilder};
use vstd::prelude::*;

verus! {

/// Arrow's description of a table: its columns, in order.
#[verifier::external_type_specification]
#[verifier::external_body]
pub struct ExSchema(Schema);

/// Arrow's columnar chunk of a table.
#[verifier::external_type_specification]
#[verifier::external_body]
pub struct ExRecordBatch(RecordBatch);

/// DataFusion's error.
#[verifier::external_type_specification]
#[verifier::external_body]
pub struct ExDataFusionError(DataFusionError);

/// DataFusion's logical plan.
#[verifier::external_type_specification]
#[verifier::external_body]
pub struct ExLogicalPlan(LogicalPlan);

/// DataFusion's builder of logical plans.
#[verifier::external_type_specification]
#[verifier::external_body]
pub struct ExLogicalPlanBuilder(LogicalPlanBuilder);

/// DataFusion's logical expression.
#[verifier::external_type_specification]
#[verifier::external_body]
pub struct ExExpr(Expr);

/// DataFusion's schema of a logical plan.
#[verifier::external_type_specification]
#[verifier::external_body]
pub struct ExDFSchema(DFSchema);

/// DataFusion's properties of one execution of a query.
#[verifier::external_type_specification]
#[verifier::external_body]
pub struct ExExecutionProps(ExecutionProps);

/// The names of the columns of a schema, in order.
pub uninterp spec fn column_names(schema: Schema) -> Seq<Seq<char>>;

/// The schema of a record batch.
pub uninterp spec fn batch_schema(batch: RecordBatch) -> Schema;

/// The outcome of building a scan of record batches in memory.
pub uninterp spec fn memory_scan(
    partitions: Seq<Seq<RecordBatch>>,
    schema: Schema,
    projection: Option<Seq<usize>>,
) -> Result<LogicalPlanBuilder, DataFusionError>;

/// The plan that a builder has built so far.
pub uninterp spec fn built_plan(builder: LogicalPlanBuilder) -> LogicalPlan;

/// The names of the columns that a plan produces, in order.
pub uninterp spec fn plan_columns(plan: LogicalPlan) -> Seq<Seq<char>>;

/// The record batches that a plan scans in memory, by partition.
pub uninterp spec fn plan_batches(plan: LogicalPlan) -> Seq<Seq<RecordBatch>>;

/// The outcome of turning a schema into the schema of a logical plan.
pub uninterp spec fn logical_schema(schema: Schema) -> Result<DFSchema, DataFusionError>;

/// No two columns of the schema have the same name.
pub open spec fn columns_distinct(schema: Schema) -> bool {
    column_names(schema).no_duplicates()
}

/// Every batch has the given schema.
pub open spec fn batches_have_schema(partitions: Seq<Seq<RecordBatch>>, schema: Schema) -> bool {
    forall|i: int, j: int|
        0 <= i < partitions.len() && 0 <= j < partitions[i].len() ==> batch_schema(
            #[trigger] partitions[i][j],
        ) == schema
}

/// The columns of a schema that a projection takes: those that it gives the
/// positions of, or all.
pub open spec fn projected(names: Seq<Seq<char>>, projection: Option<Seq<usize>>) -> Seq<Seq<char>> {
    match projection {
        Some(columns) => columns.map_values(|i: usize| names[i as int]),
        None => names,
    }
}

/// `index` is where `name` first occurs in `names`.
pub open spec fn first_occurrence(names: Seq<Seq<char>>, name: Seq<char>, index: int) -> bool {
    &&& 0 <= index < names.len()
    &&& names[index] == name
    &&& forall|i: int| 0 <= i < index ==> names[i] != name
}

/// A reference to a column of a schema, by its name and its position.
#[derive(Debug, Clone, PartialEq, Eq)]
pub struct Column {
    pub name: String,
    pub index: usize,
}

/// Looks a column up with `datafusion::physical_plan::expressions::col`.
///
/// `col` searches the fields of the schema in order for one of that name. It
/// returns a column expression with that name and the position of the first
/// such field, and fails where there is none. The expression is given back by
/// its name and position. Nothing is claimed of the text of the error.
#[verifier::external_body]
pub(crate) fn physical_col(name: &str, schema: &Schema) -> (column: Result<
    Column,
    DataFusionError,
>)
    ensures
        match column {
            Ok(c) => c.name@ == name@ && first_occurrence(
                column_names(*schema),
                name@,
                c.index as int,
            ),
            Err(_) => !column_names(*schema).contains(name@),
        },
{
    let expr = datafusion::physical_plan::expressions::col(name, schema)?;
    let column = expr
        .as_any()
        .downcast_ref::<datafusion::physical_plan::expressions::Column>()
        .expect("col returns a column expression");
    Ok(Column { name: column.name().to_string(), index: column.index() })
}

/// `RecordBatch::schema` returns a shared reference to the batch's schema.
pub assume_specification[ RecordBatch::schema ](batch: &RecordBatch) -> (schema: Arc<Schema>)
    ensures
        *schema == batch_schema(*batch),
;

/// `LogicalPlanBuilder::scan_memory` builds a scan over the given batches.
///
/// What it returns is a function of its arguments. Where every batch has the
/// schema that is given and all columns are scanned, it fails exactly if two
/// columns of the schema have the same name: the schema contains that of each
/// batch, and the qualified schema of the scan admits no name twice. Where it
/// succeeds, the plan built so far scans exactly the given batches and produces
/// the columns that the projection takes. A projection has to stay within the
/// columns of the schema.
pub assume_specification[ LogicalPlanBuilder::scan_memory ](
    partitions: Vec<Vec<RecordBatch>>,
    schema: Arc<Schema>,
    projection: Option<Vec<usize>>,
) -> (builder: Result<LogicalPlanBuilder, DataFusionError>)
    requires
        projection is Some ==> forall|i: int|
            0 <= i < projection->0.len() ==> (#[trigger] projection->0@[i]) < column_names(
                *schema,
            ).len(),
    ensures
        builder == memory_scan(
            partitions@.map_values(|p: Vec<RecordBatch>| p@),
            *schema,
            match projection {
                Some(columns) => Some(columns@),
                None => None,
            },
        ),
        builder matches Ok(b) ==> {
            &&& plan_batches(built_plan(b)) == partitions@.map_values(|p: Vec<RecordBatch>| p@)
            &&& plan_columns(built_plan(b)) == projected(
                column_names(*schema),
                match projection {
                    Some(columns) => Some(columns@),
                    None => None,
                },
            )
        },
        projection is None && batches_have_schema(
            partitions@.map_values(|p: Vec<RecordBatch>| p@),
            *schema,
        ) ==> (builder is Ok <==> columns_distinct(*schema)),
;

/// `LogicalPlanBuilder::build` returns a copy of the plan built so far. It does
/// not fail.
pub assume_specification[ LogicalPlanBuilder::build ](
    builder: &LogicalPlanBuilder,
) -> (plan: Result<LogicalPlan, DataFusionError>)
    ensures
        plan is Ok,
        plan->Ok_0 == built_plan(*builder),
;

/// Converts a schema with DataFusion's `TryFrom<Schema> for DFSchema`.
///
/// The outcome is a function of the schema. The conversion fails exactly if
/// two columns have the same name.
#[verifier::external_body]
pub(crate) fn to_logical_schema(schema: &Schema) -> (converted: Result<DFSchema, DataFusionError>)
    ensures
        converted == logical_schema(*schema),
        converted is Ok <==> columns_distinct(*schema),
{
    DFSchema::try_from(schema.clone())
}

/// `ExecutionProps::new` takes note of the time. Nothing is claimed of the
/// result. (Like the clock that it reads, it panics where that is set before
/// the Unix epoch.)
pub assume_specification[ ExecutionProps::new ]() -> ExecutionProps;

} // verus!
