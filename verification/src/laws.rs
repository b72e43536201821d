//! Laws of the translator: properties relating several functions, stated
//! over the same mathematical translation functions the contracts use.

use vstd::prelude::*;

use crate::errors::{ErrorKind, TranslationError};
use crate::ir;
use crate::ir::{ComparisonTargetV, ComparisonValueV, ExpressionV, OrderByV, PathElementV, QueryV};
use crate::legacy::{
    BinaryComparisonOperator, ColumnSelector, ComparisonColumn, ComparisonValue, Expression,
    OrderByRelation, Query, QueryRequest, ScalarValue, TableRelationships,
};
use crate::response::{spec_map_query_response, QueryResponseV};
use crate::translate::{
    spec_find_relationship, spec_find_table, spec_foreach_eq_term, spec_foreach_expr,
    spec_map_comparison_column, spec_map_expression, spec_map_fields, spec_map_order_by,
    spec_map_order_by_path, spec_map_query, spec_map_query_request, spec_variables,
};

verus! {

/// A request with no foreach batch translates, when it translates at all,
/// to an IR request whose variable-binding list is absent; and a response
/// of exactly one row set always translates to the single-result shape.
pub proof fn lemma_no_foreach_no_variables(request: QueryRequest, response: ir::QueryResponse)
    requires
        request.foreach is None,
        response.0@.len() == 1,
    ensures
        spec_map_query_request(request) matches Ok(q) ==> q.variables is None,
        spec_map_query_response(response) is Single,
{
}

/// A foreach batch synthesizes the conjunction of one equality term per key
/// of the first binding row: with two or more keys an explicit conjunction,
/// with one key the lone term, and with no rows or no keys no predicate at
/// all; the binding list always has one entry per row, so an empty batch
/// yields an empty binding list.
pub proof fn lemma_foreach_predicate(foreach: Vec<Vec<(String, ScalarValue)>>)
    ensures
        foreach@.len() > 0 ==> spec_foreach_expr(Some(foreach)) == {
            let terms = foreach@[0]@.map_values(
                |p: (String, ScalarValue)| spec_foreach_eq_term(p.0@),
            );
            if terms.len() > 1 {
                Some(ExpressionV::And { expressions: terms })
            } else if terms.len() == 1 {
                Some(terms[0])
            } else {
                None
            }
        },
        foreach@.len() == 0 ==> spec_foreach_expr(Some(foreach)) is None,
        spec_variables(Some(foreach)) matches Some(vs) && vs.len() == foreach@.len(),
{
}

/// Translating a request whose filter is a single equal-comparison of a
/// plain column against a scalar, with no foreach batch, yields an IR
/// request whose predicate is exactly one binary comparison of that column,
/// with the empty path, the canonical operator name `equal`, and the scalar
/// carried through.
pub proof fn lemma_equal_comparison_round_trip(
    request: QueryRequest,
    column: String,
    column_type: String,
    value: serde_json::Value,
    value_type: String,
)
    requires
        request.foreach is None,
        request.query.where_clause == Some(
            Expression::ApplyBinaryComparison {
                column: ComparisonColumn {
                    column_type,
                    name: ColumnSelector::Name(column),
                    path: None,
                },
                operator: BinaryComparisonOperator::Equal,
                value: ComparisonValue::Scalar { value, value_type },
            },
        ),
    ensures
        spec_map_query_request(request) matches Ok(q) ==> q.query.predicate == Some(
            ExpressionV::BinaryComparisonOperator {
                column: ComparisonTargetV::Column { name: column@, path: Seq::empty() },
                operator: "equal"@,
                value: ComparisonValueV::Scalar { value },
            },
        ),
{
}

/// A query carrying both a field-row limit and an aggregate-row limit never
/// translates; and when everything before the limit reconciliation is
/// translatable, the failure is precisely the conflicting-limits invalid
/// request, whether or not fields or aggregates are present.
pub proof fn lemma_limit_conflict(
    q: Query,
    collection: Seq<char>,
    rels: Seq<TableRelationships>,
    foreach_expr: Option<ExpressionV>,
)
    requires
        q.limit is Some,
        q.aggregates_limit is Some,
    ensures
        spec_map_query(q, collection, rels, foreach_expr) is Err,
        ((q.order_by matches Some(ob) ==> spec_map_order_by(ob, collection, rels) is Ok) && (
        q.fields matches Some(f) ==> spec_map_fields(f@, collection, rels) is Ok))
            ==> spec_map_query(q, collection, rels, foreach_expr) == Err::<
            QueryV,
            _,
        >(TranslationError::ConflictingLimits),
        TranslationError::ConflictingLimits.kind_spec() == ErrorKind::InvalidRequest,
{
}

/// A comparison column's path decides its fate uniformly: any path other
/// than the empty path or the single root reference `"$"` is the invalid
/// comparison path failure, and with a simple (single-name) selector those
/// two paths always translate.
pub proof fn lemma_comparison_path_validity(column: ComparisonColumn)
    ensures
        (column.path matches Some(p) && !(p@.len() == 0) && !(p@.len() == 1 && p@[0]@ == "$"@))
            ==> spec_map_comparison_column(column) == Err::<
            ComparisonTargetV,
            _,
        >(TranslationError::InvalidComparisonPath),
        TranslationError::InvalidComparisonPath.kind_spec() == ErrorKind::InvalidRequest,
        (column.name matches ColumnSelector::Name(_) && (column.path is None || (
        column.path matches Some(p) && (p@.len() == 0 || (p@.len() == 1 && p@[0]@ == "$"@)))))
            ==> spec_map_comparison_column(column) is Ok,
{
}

/// An order-by path segment naming a relationship that the registry cannot
/// resolve for the current collection fails as an invalid request; the
/// segment is never silently skipped.
pub proof fn lemma_order_by_unresolved_relationship(
    path: Seq<String>,
    relations: Seq<(String, OrderByRelation)>,
    collection: Seq<char>,
    rels: Seq<TableRelationships>,
)
    requires
        path.len() > 0,
        (spec_find_table(rels, collection) is None || (spec_find_table(rels, collection)
            matches Some(t) && spec_find_relationship(t.relationships@, path[0]@) is None)),
    ensures
        spec_map_order_by_path(path, relations, collection, rels) is Err,
        spec_map_order_by_path(path, relations, collection, rels) matches Err(e)
            ==> e.kind_spec() == ErrorKind::InvalidRequest,
{
}

} // verus!
