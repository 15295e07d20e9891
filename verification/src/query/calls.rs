//! What the planning helpers do, in terms of what goes into them and what comes
//! out.
//!
//! Each law is about the calls themselves: where a call with these arguments
//! gives this result, the result is tied to the arguments.

use std::sync::Arc;

use arrow::datatypes::Schema;
use arrow::record_batch::RecordBatch;
use datafusion::error::DataFusionError;
use datafusion::logical_plan::{Expr, LogicalPlan};
use vstd::prelude::*;

use crate::query::planner::{
    batch_schema, column_names, logical_schema, plan_batches, plan_columns,
};
use crate::query::util::{
    arrow_pk_sort_exprs, arrow_sort_key_exprs, df_physical_expr,
    df_physical_expr_from_schema_and_expr, key_in, make_scan_plan, pk_sort_key,
    try_arrow_pk_sort_exprs, try_arrow_sort_key_exprs, PhysicalExprInput, SortExpr, SortKey,
};

verus! {

/// The expression refers to the first of the columns that has this name.
pub open spec fn refers_to(names: Seq<Seq<char>>, name: Seq<char>, expr: SortExpr) -> bool {
    &&& expr.expr.name@ == name
    &&& expr.expr.index < names.len()
    &&& names[expr.expr.index as int] == name
    &&& forall|k: int| 0 <= k < expr.expr.index ==> #[trigger] names[k] != name
}

/// A primary key has as many sort expressions as columns. The expression at a
/// position refers to the column of the key at that position, and sorts it
/// ascending, with nulls last.
pub proof fn a_primary_key_sorts_by_each_of_its_columns<'a>(
    key_columns: Vec<&'a str>,
    schema: &Schema,
    exprs: Vec<SortExpr>,
)
    requires
        call_ensures(arrow_pk_sort_exprs, (key_columns, schema), exprs),
    ensures
        exprs.len() == key_columns.len(),
        forall|i: int|
            0 <= i < key_columns.len() ==> {
                &&& refers_to(column_names(*schema), key_columns@[i]@, #[trigger] exprs@[i])
                &&& !exprs@[i].options.descending
                &&& !exprs@[i].options.nulls_first
            },
{
    let key = pk_sort_key(key_columns@);
    assert(key.len() == key_columns.len());
    assert forall|i: int| 0 <= i < key_columns.len() implies {
        &&& refers_to(column_names(*schema), key_columns@[i]@, #[trigger] exprs@[i])
        &&& !exprs@[i].options.descending
        &&& !exprs@[i].options.nulls_first
    } by {
        assert(key[i].0 == key_columns@[i]@);
    }
}

/// A sort key has as many sort expressions as columns. The expression at a
/// position refers to the column of the key at that position, and sorts it as
/// the key says.
pub proof fn a_sort_key_sorts_by_each_of_its_columns(
    sort_key: SortKey,
    schema: &Schema,
    exprs: Vec<SortExpr>,
)
    requires
        call_ensures(arrow_sort_key_exprs, (&sort_key, schema), exprs),
    ensures
        exprs.len() == sort_key.columns.len(),
        forall|i: int|
            0 <= i < sort_key.columns.len() ==> {
                &&& refers_to(
                    column_names(*schema),
                    sort_key.columns@[i].0@,
                    #[trigger] exprs@[i],
                )
                &&& exprs@[i].options.descending == sort_key.columns@[i].1.descending
                &&& exprs@[i].options.nulls_first == sort_key.columns@[i].1.nulls_first
            },
{
    let key = sort_key@;
    assert(key.len() == sort_key.columns.len());
    assert forall|i: int| 0 <= i < sort_key.columns.len() implies {
        &&& refers_to(column_names(*schema), sort_key.columns@[i].0@, #[trigger] exprs@[i])
        &&& exprs@[i].options.descending == sort_key.columns@[i].1.descending
        &&& exprs@[i].options.nulls_first == sort_key.columns@[i].1.nulls_first
    } by {
        assert(key[i].0 == sort_key.columns@[i].0@);
        assert(key[i].1 == sort_key.columns@[i].1);
    }
}

/// Every key whose columns are all in the schema can be turned into sort
/// expressions.
pub proof fn keys_of_the_schema_can_be_sorted_by<'a>(
    key_columns: Vec<&'a str>,
    sort_key: SortKey,
    schema: &Schema,
)
    ensures
        (forall|i: int|
            0 <= i < key_columns.len() ==> column_names(*schema).contains(
                (#[trigger] key_columns@[i])@,
            )) ==> call_requires(arrow_pk_sort_exprs, (key_columns, schema)),
        (forall|i: int|
            0 <= i < sort_key.columns.len() ==> column_names(*schema).contains(
                (#[trigger] sort_key.columns@[i]).0@,
            )) ==> call_requires(arrow_sort_key_exprs, (&sort_key, schema)),
{
    let names = column_names(*schema);
    if forall|i: int|
        0 <= i < key_columns.len() ==> names.contains((#[trigger] key_columns@[i])@) {
        let key = pk_sort_key(key_columns@);
        assert forall|i: int| 0 <= i < key.len() implies names.contains((#[trigger] key[i]).0) by {
            assert(key[i].0 == key_columns@[i]@);
        }
        assert(key_in(names, key));
    }
    if forall|i: int|
        0 <= i < sort_key.columns.len() ==> names.contains((#[trigger] sort_key.columns@[i]).0@) {
        let key = sort_key@;
        assert forall|i: int| 0 <= i < key.len() implies names.contains((#[trigger] key[i]).0) by {
            assert(key[i].0 == sort_key.columns@[i].0@);
        }
        assert(key_in(names, key));
    }
}

/// Where the columns of a primary key are looked for first, there are sort
/// expressions exactly if all are in the schema, and then those of the key.
/// Otherwise the first that is not is named.
pub proof fn a_missing_primary_key_column_is_named<'a>(
    key_columns: Vec<&'a str>,
    schema: &Schema,
    exprs: Result<Vec<SortExpr>, &'a str>,
)
    requires
        call_ensures(try_arrow_pk_sort_exprs, (key_columns, schema), exprs),
    ensures
        match exprs {
            Ok(exprs) => {
                &&& exprs.len() == key_columns.len()
                &&& forall|i: int|
                    0 <= i < key_columns.len() ==> {
                        &&& refers_to(
                            column_names(*schema),
                            key_columns@[i]@,
                            #[trigger] exprs@[i],
                        )
                        &&& !exprs@[i].options.descending
                        &&& !exprs@[i].options.nulls_first
                    }
            },
            Err(name) => exists|i: int|
                {
                    &&& 0 <= i < key_columns.len()
                    &&& (#[trigger] key_columns@[i])@ == name@
                    &&& !column_names(*schema).contains(name@)
                    &&& forall|k: int|
                        0 <= k < i ==> column_names(*schema).contains(
                            (#[trigger] key_columns@[k])@,
                        )
                },
        },
{
    let names = column_names(*schema);
    let key = pk_sort_key(key_columns@);
    assert(key.len() == key_columns.len());
    match exprs {
        Ok(exprs) => {
            assert forall|i: int| 0 <= i < key_columns.len() implies {
                &&& refers_to(names, key_columns@[i]@, #[trigger] exprs@[i])
                &&& !exprs@[i].options.descending
                &&& !exprs@[i].options.nulls_first
            } by {
                assert(key[i].0 == key_columns@[i]@);
            }
        },
        Err(name) => {
            let i = choose|i: int|
                {
                    &&& 0 <= i < key.len()
                    &&& (#[trigger] key[i]).0 == name@
                    &&& !names.contains(name@)
                    &&& key_in(names, key.take(i))
                };
            assert forall|k: int| 0 <= k < i implies names.contains(
                (#[trigger] key_columns@[k])@,
            ) by {
                assert(key.take(i)[k].0 == key_columns@[k]@);
            }
            assert(key_columns@[i]@ == name@);
        },
    }
}

/// The same holds of a sort key, with its options.
pub proof fn a_missing_sort_key_column_is_named<'a>(
    sort_key: &'a SortKey,
    schema: &Schema,
    exprs: Result<Vec<SortExpr>, &'a str>,
)
    requires
        call_ensures(try_arrow_sort_key_exprs, (sort_key, schema), exprs),
    ensures
        match exprs {
            Ok(exprs) => {
                &&& exprs.len() == sort_key.columns.len()
                &&& forall|i: int|
                    0 <= i < sort_key.columns.len() ==> {
                        &&& refers_to(
                            column_names(*schema),
                            sort_key.columns@[i].0@,
                            #[trigger] exprs@[i],
                        )
                        &&& exprs@[i].options.descending == sort_key.columns@[i].1.descending
                        &&& exprs@[i].options.nulls_first == sort_key.columns@[i].1.nulls_first
                    }
            },
            Err(name) => exists|i: int|
                {
                    &&& 0 <= i < sort_key.columns.len()
                    &&& (#[trigger] sort_key.columns@[i]).0@ == name@
                    &&& !column_names(*schema).contains(name@)
                    &&& forall|k: int|
                        0 <= k < i ==> column_names(*schema).contains(
                            (#[trigger] sort_key.columns@[k]).0@,
                        )
                },
        },
{
    let names = column_names(*schema);
    let key = sort_key@;
    assert(key.len() == sort_key.columns.len());
    match exprs {
        Ok(exprs) => {
            assert forall|i: int| 0 <= i < sort_key.columns.len() implies {
                &&& refers_to(names, sort_key.columns@[i].0@, #[trigger] exprs@[i])
                &&& exprs@[i].options.descending == sort_key.columns@[i].1.descending
                &&& exprs@[i].options.nulls_first == sort_key.columns@[i].1.nulls_first
            } by {
                assert(key[i].0 == sort_key.columns@[i].0@);
                assert(key[i].1 == sort_key.columns@[i].1);
            }
        },
        Err(name) => {
            let i = choose|i: int|
                {
                    &&& 0 <= i < key.len()
                    &&& (#[trigger] key[i]).0 == name@
                    &&& !names.contains(name@)
                    &&& key_in(names, key.take(i))
                };
            assert forall|k: int| 0 <= k < i implies names.contains(
                (#[trigger] sort_key.columns@[k]).0@,
            ) by {
                assert(key.take(i)[k].0 == sort_key.columns@[k].0@);
            }
            assert(sort_key.columns@[i].0@ == name@);
        },
    }
}

/// A record batch has a scan plan exactly if no two of its columns have the same
/// name. The plan scans that batch and no other, and produces its columns, all
/// of them and in their order.
pub proof fn a_scan_plan_produces_its_batch(
    batch: RecordBatch,
    plan: Result<LogicalPlan, DataFusionError>,
)
    requires
        call_ensures(make_scan_plan, (batch,), plan),
    ensures
        ({
            let names = column_names(batch_schema(batch));
            &&& plan is Ok <==> forall|i: int, j: int|
                0 <= i < j < names.len() ==> #[trigger] names[i] != #[trigger] names[j]
            &&& plan matches Ok(p) ==> {
                &&& plan_columns(p) == names
                &&& plan_batches(p).len() == 1
                &&& plan_batches(p)[0].len() == 1
                &&& plan_batches(p)[0][0] == batch
            }
        }),
{
}

/// A physical expression is prepared over the schema that is given, for the
/// expression that is given, with the logical schema that the schema converts
/// into. That is possible exactly if no two columns have the same name, and
/// where it is not, the error is that of the conversion.
pub proof fn a_physical_expression_is_prepared_over_its_schema(
    schema: Arc<Schema>,
    expr: Expr,
    input: Result<PhysicalExprInput, DataFusionError>,
    for_plan: Result<PhysicalExprInput, DataFusionError>,
)
    requires
        call_ensures(df_physical_expr_from_schema_and_expr, (schema, expr), input),
        call_ensures(df_physical_expr, (schema, expr), for_plan),
    ensures
        ({
            let names = column_names(*schema);
            let distinct = forall|i: int, j: int|
                0 <= i < j < names.len() ==> #[trigger] names[i] != #[trigger] names[j];
            &&& input is Ok <==> distinct
            &&& for_plan is Ok <==> distinct
        }),
        input matches Ok(i) ==> {
            &&& i.expr == expr
            &&& *i.physical_schema == *schema
            &&& logical_schema(*schema) matches Ok(logical)
            &&& i.logical_schema == logical
        },
        for_plan matches Ok(i) ==> {
            &&& i.expr == expr
            &&& *i.physical_schema == *schema
            &&& logical_schema(*schema) matches Ok(logical)
            &&& i.logical_schema == logical
        },
        input matches Err(e) ==> logical_schema(*schema) matches Err(cause) && e == cause,
        for_plan matches Err(e) ==> logical_schema(*schema) matches Err(cause) && e == cause,
{
}

} // verus!
