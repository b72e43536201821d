//! Query translation: a legacy query request rewritten, losslessly where
//! possible, into the current IR.
//!
//! Every function is specified against a mathematical translation function
//! over the mirror types; constructs the IR cannot express fail with a
//! [`TranslationError`], and the contracts state exactly which.

use vstd::prelude::*;
use vstd::string::StringExecFns;

use crate::errors::TranslationError;
use crate::ir;
use crate::ir::{
    AggregateV, ComparisonTargetV, ComparisonValueV, ExistsInCollectionV, ExpressionV, FieldV,
    OrderByElementV, OrderByTargetV, OrderByV, PathElementV, QueryRequestV, QueryV, RelationshipV,
};
use crate::legacy::{
    Aggregate, BinaryArrayComparisonOperator, BinaryComparisonOperator, ColumnSelector,
    ComparisonColumn, ComparisonValue, ExistsInTable, Expression, Field, FunctionRequestArgument,
    OrderBy, OrderByElement, OrderByRelation, OrderByTarget, OrderDirection, Query, QueryRequest,
    Relationship, RelationshipType, ScalarValue, TableRelationships, Target,
    UnaryComparisonOperator,
};
use crate::values::array_of;

verus! {

broadcast use vstd::seq::axiom_seq_index_decreases, vstd::std_specs::vec::axiom_vec_decreases_to_view;

// ---------------------------------------------------------------------------
// Result mirrors.
// ---------------------------------------------------------------------------

/// The mirror of a name-resolution result.
pub open spec fn name_result_view(r: Result<String, TranslationError>) -> Result<
    Seq<char>,
    TranslationError,
> {
    match r {
        Ok(s) => Ok(s@),
        Err(e) => Err(e),
    }
}

/// The mirror of a comparison-target result.
pub open spec fn target_result_view(r: Result<ir::ComparisonTarget, TranslationError>) -> Result<
    ComparisonTargetV,
    TranslationError,
> {
    match r {
        Ok(t) => Ok(ir::comparison_target_view(t)),
        Err(e) => Err(e),
    }
}

/// The mirror of a collection-and-arguments result.
pub open spec fn collection_result_view(
    r: Result<(String, Vec<(String, ir::Argument)>), TranslationError>,
) -> Result<(Seq<char>, Seq<(Seq<char>, ir::Argument)>), TranslationError> {
    match r {
        Ok((name, args)) => Ok((name@, ir::arguments_view(args@))),
        Err(e) => Err(e),
    }
}

/// The mirror of a collection-and-relationship-arguments result.
pub open spec fn rel_collection_result_view(
    r: Result<(String, Vec<(String, ir::RelationshipArgument)>), TranslationError>,
) -> Result<(Seq<char>, Seq<(Seq<char>, ir::RelationshipArgument)>), TranslationError> {
    match r {
        Ok((name, args)) => Ok((name@, ir::rel_arguments_view(args@))),
        Err(e) => Err(e),
    }
}

// ---------------------------------------------------------------------------
// Names and selectors.
// ---------------------------------------------------------------------------

/// The single name segment of a target or table name: names with zero or
/// several segments are invalid.
pub open spec fn spec_get_name(target: Seq<String>) -> Result<Seq<char>, TranslationError> {
    if target.len() == 1 {
        Ok(target[0]@)
    } else {
        Err(TranslationError::MultiSegmentTargetName)
    }
}

/// Extract the single name segment of a target or table name.
pub fn get_name(target: &Vec<String>) -> (r: Result<String, TranslationError>)
    ensures
        name_result_view(r) == spec_get_name(target@),
{
    if target.len() == 1 {
        Ok(target[0].clone())
    } else {
        Err(TranslationError::MultiSegmentTargetName)
    }
}

/// The single column name of a selector: compound selectors are invalid.
pub open spec fn spec_get_col_name(column: ColumnSelector) -> Result<Seq<char>, TranslationError> {
    match column {
        ColumnSelector::Name(name) => Ok(name@),
        ColumnSelector::Compound(_) => Err(TranslationError::CompoundColumnSelector),
    }
}

/// Extract the single column name of a selector.
pub fn get_col_name(column: &ColumnSelector) -> (r: Result<String, TranslationError>)
    ensures
        name_result_view(r) == spec_get_col_name(*column),
{
    match column {
        ColumnSelector::Name(name) => Ok(name.clone()),
        ColumnSelector::Compound(_) => Err(TranslationError::CompoundColumnSelector),
    }
}

// ---------------------------------------------------------------------------
// Flattened relationship keys.
// ---------------------------------------------------------------------------

/// The flat registry key of a relationship: the source collection and the
/// relationship name joined with a dot.
pub open spec fn joined_key(collection: Seq<char>, name: Seq<char>) -> Seq<char> {
    collection + "."@ + name
}

/// Build the flat registry key of a relationship.
pub fn join_key(collection: &String, name: &String) -> (r: String)
    ensures
        r@ == joined_key(collection@, name@),
{
    let mut s = collection.clone();
    s.append(".");
    s.append(name.as_str());
    s
}

// ---------------------------------------------------------------------------
// Comparison columns.
// ---------------------------------------------------------------------------

/// The comparison target a plain (pathless) comparison column translates to.
pub open spec fn spec_plain_column(name: ColumnSelector) -> Result<
    ComparisonTargetV,
    TranslationError,
> {
    match spec_get_col_name(name) {
        Ok(n) => Ok(ComparisonTargetV::Column { name: n, path: Seq::empty() }),
        Err(e) => Err(e),
    }
}

/// The comparison target a comparison column translates to.  Only the empty
/// path (a column of the current collection) and the single segment `"$"`
/// (a column of the root collection) are representable; any other path fails.
pub open spec fn spec_map_comparison_column(column: ComparisonColumn) -> Result<
    ComparisonTargetV,
    TranslationError,
> {
    match column.path {
        None => spec_plain_column(column.name),
        Some(path) => if path@.len() == 0 {
            spec_plain_column(column.name)
        } else if path@.len() == 1 && path@[0]@ == "$"@ {
            match spec_get_col_name(column.name) {
                Ok(n) => Ok(ComparisonTargetV::RootCollectionColumn { name: n }),
                Err(e) => Err(e),
            }
        } else {
            Err(TranslationError::InvalidComparisonPath)
        },
    }
}

/// Build the comparison target for a plain column of the current collection.
fn plain_column_target(n: String) -> (t: ir::ComparisonTarget)
    ensures
        ir::comparison_target_view(t) == (ComparisonTargetV::Column {
            name: n@,
            path: Seq::empty(),
        }),
{
    let ghost nv = n@;
    let t = ir::ComparisonTarget::Column { name: n, path: Vec::new() };
    proof {
        assert(ir::comparison_target_view(t) =~~= (ComparisonTargetV::Column {
            name: nv,
            path: Seq::empty(),
        }));
    }
    t
}

/// Translate a comparison column into a comparison target.
pub fn map_comparison_column(column: &ComparisonColumn) -> (r: Result<
    ir::ComparisonTarget,
    TranslationError,
>)
    ensures
        target_result_view(r) == spec_map_comparison_column(*column),
{
    let r: Result<ir::ComparisonTarget, TranslationError> = match &column.path {
        None => match get_col_name(&column.name) {
            Ok(n) => Ok(plain_column_target(n)),
            Err(e) => Err(e),
        },
        Some(path) => if path.len() == 0 {
            match get_col_name(&column.name) {
                Ok(n) => Ok(plain_column_target(n)),
                Err(e) => Err(e),
            }
        } else {
            let dollar: String = String::from_str("$");
            if path.len() == 1 && path[0] == dollar {
                match get_col_name(&column.name) {
                    Ok(n) => Ok(ir::ComparisonTarget::RootCollectionColumn { name: n }),
                    Err(e) => Err(e),
                }
            } else {
                Err(TranslationError::InvalidComparisonPath)
            }
        },
    };
    proof {
        assert(target_result_view(r) =~~= spec_map_comparison_column(*column));
    }
    r
}

// ---------------------------------------------------------------------------
// Targets and their arguments.
// ---------------------------------------------------------------------------

/// The top-level argument entry a named function argument translates to.
pub open spec fn spec_argument_entry(a: FunctionRequestArgument) -> (Seq<char>, ir::Argument) {
    match a {
        FunctionRequestArgument::Named { name, value } => (
            name@,
            ir::Argument::Literal { value: value.value },
        ),
    }
}

/// The relationship argument entry a named function argument translates to.
pub open spec fn spec_rel_argument_entry(a: FunctionRequestArgument) -> (
    Seq<char>,
    ir::RelationshipArgument,
) {
    match a {
        FunctionRequestArgument::Named { name, value } => (
            name@,
            ir::RelationshipArgument::Literal { value: value.value },
        ),
    }
}

/// The collection name and top-level argument map a legacy target resolves
/// to: a plain table has no arguments, a function call one literal entry per
/// named argument; interpolated targets are unsupported.
pub open spec fn spec_get_collection_and_arguments(target: Target) -> Result<
    (Seq<char>, Seq<(Seq<char>, ir::Argument)>),
    TranslationError,
> {
    match target {
        Target::Table { name } => match spec_get_name(name@) {
            Ok(n) => Ok((n, Seq::empty())),
            Err(e) => Err(e),
        },
        Target::Interpolated { .. } => Err(TranslationError::InterpolatedTargetUnsupported),
        Target::Function { name, arguments } => match spec_get_name(name@) {
            Ok(n) => Ok((n, arguments@.map_values(|a: FunctionRequestArgument| spec_argument_entry(a)))),
            Err(e) => Err(e),
        },
    }
}

/// The collection name and relationship-argument map a legacy target
/// resolves to: the same resolution with the IR's relationship-context
/// literal wrapper.
pub open spec fn spec_get_collection_and_relationship_arguments(target: Target) -> Result<
    (Seq<char>, Seq<(Seq<char>, ir::RelationshipArgument)>),
    TranslationError,
> {
    match target {
        Target::Table { name } => match spec_get_name(name@) {
            Ok(n) => Ok((n, Seq::empty())),
            Err(e) => Err(e),
        },
        Target::Interpolated { .. } => Err(TranslationError::InterpolatedTargetUnsupported),
        Target::Function { name, arguments } => match spec_get_name(name@) {
            Ok(n) => Ok(
                (n, arguments@.map_values(|a: FunctionRequestArgument| spec_rel_argument_entry(a))),
            ),
            Err(e) => Err(e),
        },
    }
}

/// Resolve a legacy target into a collection name and its top-level
/// argument map.
pub fn get_collection_and_arguments(target: &Target) -> (r: Result<
    (String, Vec<(String, ir::Argument)>),
    TranslationError,
>)
    ensures
        collection_result_view(r) == spec_get_collection_and_arguments(*target),
{
    let r: Result<(String, Vec<(String, ir::Argument)>), TranslationError> = match target {
        Target::Table { name } => match get_name(name) {
            Ok(n) => {
                let args: Vec<(String, ir::Argument)> = Vec::new();
                proof {
                    assert(ir::arguments_view(args@) =~= Seq::empty());
                }
                Ok((n, args))
            },
            Err(e) => Err(e),
        },
        Target::Interpolated { .. } => Err(TranslationError::InterpolatedTargetUnsupported),
        Target::Function { name, arguments } => match get_name(name) {
            Ok(n) => {
                let mut args: Vec<(String, ir::Argument)> = Vec::new();
                let count = arguments.len();
                let mut i: usize = 0;
                while i < count
                    invariant
                        count == arguments@.len(),
                        i <= count,
                        args@.len() == i,
                        forall|j: int|
                            0 <= j < i ==> (#[trigger] args@[j].0@, args@[j].1)
                                == spec_argument_entry(arguments@[j]),
                    decreases count - i,
                {
                    match &arguments[i] {
                        FunctionRequestArgument::Named { name: arg_name, value } => {
                            args.push(
                                (
                                    arg_name.clone(),
                                    ir::Argument::Literal { value: value.value.clone() },
                                ),
                            );
                        },
                    }
                    i = i + 1;
                }
                proof {
                    assert(ir::arguments_view(args@) =~= arguments@.map_values(
                        |a: FunctionRequestArgument| spec_argument_entry(a),
                    ));
                }
                Ok((n, args))
            },
            Err(e) => Err(e),
        },
    };
    proof {
        assert(collection_result_view(r) =~~= spec_get_collection_and_arguments(*target));
    }
    r
}

/// Resolve a legacy target into a collection name and its
/// relationship-argument map.
pub fn get_collection_and_relationship_arguments(target: &Target) -> (r: Result<
    (String, Vec<(String, ir::RelationshipArgument)>),
    TranslationError,
>)
    ensures
        rel_collection_result_view(r) == spec_get_collection_and_relationship_arguments(*target),
{
    let r: Result<(String, Vec<(String, ir::RelationshipArgument)>), TranslationError> = match target {
        Target::Table { name } => match get_name(name) {
            Ok(n) => {
                let args: Vec<(String, ir::RelationshipArgument)> = Vec::new();
                proof {
                    assert(ir::rel_arguments_view(args@) =~= Seq::empty());
                }
                Ok((n, args))
            },
            Err(e) => Err(e),
        },
        Target::Interpolated { .. } => Err(TranslationError::InterpolatedTargetUnsupported),
        Target::Function { name, arguments } => match get_name(name) {
            Ok(n) => {
                let mut args: Vec<(String, ir::RelationshipArgument)> = Vec::new();
                let count = arguments.len();
                let mut i: usize = 0;
                while i < count
                    invariant
                        count == arguments@.len(),
                        i <= count,
                        args@.len() == i,
                        forall|j: int|
                            0 <= j < i ==> (#[trigger] args@[j].0@, args@[j].1)
                                == spec_rel_argument_entry(arguments@[j]),
                    decreases count - i,
                {
                    match &arguments[i] {
                        FunctionRequestArgument::Named { name: arg_name, value } => {
                            args.push(
                                (
                                    arg_name.clone(),
                                    ir::RelationshipArgument::Literal { value: value.value.clone() },
                                ),
                            );
                        },
                    }
                    i = i + 1;
                }
                proof {
                    assert(ir::rel_arguments_view(args@) =~= arguments@.map_values(
                        |a: FunctionRequestArgument| spec_rel_argument_entry(a),
                    ));
                }
                Ok((n, args))
            },
            Err(e) => Err(e),
        },
    };
    proof {
        assert(rel_collection_result_view(r) =~~= spec_get_collection_and_relationship_arguments(
            *target,
        ));
    }
    r
}

// ---------------------------------------------------------------------------
// Registry lookups.
// ---------------------------------------------------------------------------

/// The first relationship grouping whose source table is the given
/// single-segment name.
pub open spec fn spec_find_table(
    rels: Seq<TableRelationships>,
    name: Seq<char>,
) -> Option<TableRelationships>
    decreases rels,
{
    if rels.len() == 0 {
        None
    } else if rels[0].source_table@.len() == 1 && rels[0].source_table@[0]@ == name {
        Some(rels[0])
    } else {
        spec_find_table(rels.drop_first(), name)
    }
}

/// The first entry of a keyed pair vector whose key is the given name, for
/// relationship entries.
pub open spec fn spec_find_relationship(
    entries: Seq<(String, Relationship)>,
    name: Seq<char>,
) -> Option<Relationship>
    decreases entries,
{
    if entries.len() == 0 {
        None
    } else if entries[0].0@ == name {
        Some(entries[0].1)
    } else {
        spec_find_relationship(entries.drop_first(), name)
    }
}

/// Find the index of the relationship grouping for the given source table.
fn find_table_index(rels: &Vec<TableRelationships>, name: &String) -> (r: Option<usize>)
    ensures
        match r {
            Some(i) => i < rels@.len() && spec_find_table(rels@, name@) == Some(rels@[i as int]),
            None => spec_find_table(rels@, name@) is None,
        },
{
    let count = rels.len();
    proof {
        assert(rels@.subrange(0, count as int) =~= rels@);
    }
    let mut i: usize = 0;
    while i < count
        invariant
            count == rels@.len(),
            i <= count,
            spec_find_table(rels@, name@) == spec_find_table(
                rels@.subrange(i as int, count as int),
                name@,
            ),
        decreases count - i,
    {
        let t = &rels[i];
        proof {
            assert(rels@.subrange(i as int, count as int)[0] == rels@[i as int]);
        }
        if t.source_table.len() == 1 && t.source_table[0] == *name {
            return Some(i);
        }
        proof {
            assert(rels@.subrange(i as int, count as int).drop_first() =~= rels@.subrange(
                i as int + 1,
                count as int,
            ));
        }
        i = i + 1;
    }
    None
}

/// Find the index of the named relationship in a grouping's entries.
fn find_relationship_index(entries: &Vec<(String, Relationship)>, name: &String) -> (r: Option<
    usize,
>)
    ensures
        match r {
            Some(i) => i < entries@.len() && spec_find_relationship(entries@, name@) == Some(
                entries@[i as int].1,
            ),
            None => spec_find_relationship(entries@, name@) is None,
        },
{
    let count = entries.len();
    proof {
        assert(entries@.subrange(0, count as int) =~= entries@);
    }
    let mut i: usize = 0;
    while i < count
        invariant
            count == entries@.len(),
            i <= count,
            spec_find_relationship(entries@, name@) == spec_find_relationship(
                entries@.subrange(i as int, count as int),
                name@,
            ),
        decreases count - i,
    {
        proof {
            assert(entries@.subrange(i as int, count as int)[0] == entries@[i as int]);
        }
        if entries[i].0 == *name {
            return Some(i);
        }
        proof {
            assert(entries@.subrange(i as int, count as int).drop_first() =~= entries@.subrange(
                i as int + 1,
                count as int,
            ));
        }
        i = i + 1;
    }
    None
}

/// The collection and arguments a named relationship of a source table
/// resolves to: the grouping of the source table is looked up first, then
/// the relationship within it, then its target is resolved.
pub open spec fn spec_get_relationship_collection_arguments(
    source_table_name: Seq<char>,
    relationship: Seq<char>,
    table_relationships: Seq<TableRelationships>,
) -> Result<(Seq<char>, Seq<(Seq<char>, ir::RelationshipArgument)>), TranslationError> {
    match spec_find_table(table_relationships, source_table_name) {
        None => Err(TranslationError::TableNotFound),
        Some(source_table) => match spec_find_relationship(
            source_table.relationships@,
            relationship,
        ) {
            None => Err(TranslationError::RelationshipNotFound),
            Some(rel) => spec_get_collection_and_relationship_arguments(rel.target),
        },
    }
}

/// Resolve a named relationship of a source table into its target
/// collection and arguments.
pub fn get_relationship_collection_arguments(
    source_table_name: &String,
    relationship: &String,
    table_relationships: &Vec<TableRelationships>,
) -> (r: Result<(String, Vec<(String, ir::RelationshipArgument)>), TranslationError>)
    ensures
        rel_collection_result_view(r) == spec_get_relationship_collection_arguments(
            source_table_name@,
            relationship@,
            table_relationships@,
        ),
{
    match find_table_index(table_relationships, source_table_name) {
        None => Err(TranslationError::TableNotFound),
        Some(ti) => {
            let source_table = &table_relationships[ti];
            match find_relationship_index(&source_table.relationships, relationship) {
                None => Err(TranslationError::RelationshipNotFound),
                Some(ri) => get_collection_and_relationship_arguments(
                    &source_table.relationships[ri].1.target,
                ),
            }
        },
    }
}

// ---------------------------------------------------------------------------
// Expressions.
// ---------------------------------------------------------------------------

/// The mirror of an expression result.
pub open spec fn expr_result_view(r: Result<ir::Expression, TranslationError>) -> Result<
    ExpressionV,
    TranslationError,
> {
    match r {
        Ok(e) => Ok(ir::expression_view(e)),
        Err(e) => Err(e),
    }
}

/// The canonical IR name of a binary comparison operator: the fixed
/// relational set maps to lowercase-with-underscore names, and any other
/// operator passes through verbatim.
pub open spec fn spec_binary_operator_name(op: BinaryComparisonOperator) -> Seq<char> {
    match op {
        BinaryComparisonOperator::LessThan => "less_than"@,
        BinaryComparisonOperator::LessThanOrEqual => "less_than_or_equal"@,
        BinaryComparisonOperator::Equal => "equal"@,
        BinaryComparisonOperator::GreaterThan => "greater_than"@,
        BinaryComparisonOperator::GreaterThanOrEqual => "greater_than_or_equal"@,
        BinaryComparisonOperator::Other(name) => name@,
    }
}

/// Produce the canonical IR name of a binary comparison operator.
fn binary_operator_name(op: &BinaryComparisonOperator) -> (r: String)
    ensures
        r@ == spec_binary_operator_name(*op),
{
    match op {
        BinaryComparisonOperator::LessThan => String::from_str("less_than"),
        BinaryComparisonOperator::LessThanOrEqual => String::from_str("less_than_or_equal"),
        BinaryComparisonOperator::Equal => String::from_str("equal"),
        BinaryComparisonOperator::GreaterThan => String::from_str("greater_than"),
        BinaryComparisonOperator::GreaterThanOrEqual => String::from_str("greater_than_or_equal"),
        BinaryComparisonOperator::Other(name) => name.clone(),
    }
}

/// The IR comparison value a legacy right-hand side translates to.
pub open spec fn spec_map_comparison_value(v: ComparisonValue) -> Result<
    ComparisonValueV,
    TranslationError,
> {
    match v {
        ComparisonValue::Scalar { value, value_type: _ } => Ok(ComparisonValueV::Scalar { value }),
        ComparisonValue::Column { column } => match spec_map_comparison_column(column) {
            Ok(c) => Ok(ComparisonValueV::Column { column: c }),
            Err(e) => Err(e),
        },
    }
}

/// The IR expression a legacy expression translates to, scoped to a
/// collection and the relationship groupings, or the first failure found.
///
/// A membership comparison keeps the legacy behaviour of carrying its whole
/// right-hand value array as one opaque scalar attached to an `in`
/// comparison: a deliberate, lossy simplification, since the legacy caller
/// does not supply the IR's structured membership operand.
pub open spec fn spec_map_expression(
    e: Expression,
    collection: Seq<char>,
    rels: Seq<TableRelationships>,
) -> Result<ExpressionV, TranslationError>
    decreases e,
{
    match e {
        Expression::And { expressions } => match spec_map_expressions(
            expressions@,
            collection,
            rels,
        ) {
            Ok(vs) => Ok(ExpressionV::And { expressions: vs }),
            Err(err) => Err(err),
        },
        Expression::Or { expressions } => match spec_map_expressions(expressions@, collection, rels) {
            Ok(vs) => Ok(ExpressionV::Or { expressions: vs }),
            Err(err) => Err(err),
        },
        Expression::Not { expression } => match spec_map_expression(*expression, collection, rels) {
            Ok(v) => Ok(ExpressionV::Not { expression: Box::new(v) }),
            Err(err) => Err(err),
        },
        Expression::ApplyUnaryComparison { column, operator } => match spec_map_comparison_column(
            column,
        ) {
            Ok(c) => match operator {
                UnaryComparisonOperator::IsNull => Ok(ExpressionV::UnaryComparisonOperator {
                    column: c,
                    operator: ir::UnaryComparisonOperator::IsNull,
                }),
                UnaryComparisonOperator::Other(_) => Err(TranslationError::UnknownUnaryOperator),
            },
            Err(err) => Err(err),
        },
        Expression::ApplyBinaryComparison { column, operator, value } => match spec_map_comparison_column(
            column,
        ) {
            Ok(c) => match spec_map_comparison_value(value) {
                Ok(v) => Ok(ExpressionV::BinaryComparisonOperator {
                    column: c,
                    operator: spec_binary_operator_name(operator),
                    value: v,
                }),
                Err(err) => Err(err),
            },
            Err(err) => Err(err),
        },
        Expression::ApplyBinaryArrayComparison { column, operator, value_type: _, values } => match spec_map_comparison_column(
            column,
        ) {
            Ok(c) => match operator {
                BinaryArrayComparisonOperator::In => Ok(ExpressionV::BinaryComparisonOperator {
                    column: c,
                    operator: "in"@,
                    value: ComparisonValueV::Scalar { value: array_of(values@) },
                }),
                BinaryArrayComparisonOperator::Other(_) => Err(
                    TranslationError::UnknownArrayOperator,
                ),
            },
            Err(err) => Err(err),
        },
        Expression::Exists { in_table, where_clause } => match in_table {
            ExistsInTable::Unrelated { table } => match spec_get_name(table@) {
                Ok(name) => match spec_map_expression(*where_clause, name, rels) {
                    Ok(p) => Ok(ExpressionV::Exists {
                        in_collection: ExistsInCollectionV::Unrelated {
                            collection: name,
                            arguments: Seq::empty(),
                        },
                        predicate: Some(Box::new(p)),
                    }),
                    Err(err) => Err(err),
                },
                Err(err) => Err(err),
            },
            ExistsInTable::Related { relationship } => match spec_get_relationship_collection_arguments(
                collection,
                relationship@,
                rels,
            ) {
                Ok((target_table, arguments)) => match spec_map_expression(
                    *where_clause,
                    target_table,
                    rels,
                ) {
                    Ok(p) => Ok(ExpressionV::Exists {
                        in_collection: ExistsInCollectionV::Related {
                            relationship: joined_key(collection, relationship@),
                            arguments,
                        },
                        predicate: Some(Box::new(p)),
                    }),
                    Err(err) => Err(err),
                },
                Err(err) => Err(err),
            },
        },
    }
}

/// The IR expressions a sequence of legacy expressions translates to, or
/// the first failure among them.
pub open spec fn spec_map_expressions(
    s: Seq<Expression>,
    collection: Seq<char>,
    rels: Seq<TableRelationships>,
) -> Result<Seq<ExpressionV>, TranslationError>
    decreases s,
{
    if s.len() == 0 {
        Ok(Seq::empty())
    } else {
        match spec_map_expressions(s.drop_last(), collection, rels) {
            Ok(vs) => match spec_map_expression(s.last(), collection, rels) {
                Ok(v) => Ok(vs.push(v)),
                Err(err) => Err(err),
            },
            Err(err) => Err(err),
        }
    }
}

/// A failing prefix decides the whole sequence's translation.
proof fn lemma_map_expressions_prefix_err(
    s: Seq<Expression>,
    collection: Seq<char>,
    rels: Seq<TableRelationships>,
    k: int,
)
    requires
        0 <= k <= s.len(),
        spec_map_expressions(s.subrange(0, k), collection, rels) is Err,
    ensures
        spec_map_expressions(s, collection, rels) == spec_map_expressions(
            s.subrange(0, k),
            collection,
            rels,
        ),
    decreases s.len(),
{
    if s.len() == k {
        assert(s.subrange(0, k) =~= s);
    } else {
        assert(s.drop_last().subrange(0, k) =~= s.subrange(0, k));
        lemma_map_expressions_prefix_err(s.drop_last(), collection, rels, k);
    }
}

/// Clone a vector of scalar values.
fn clone_values(values: &Vec<serde_json::Value>) -> (r: Vec<serde_json::Value>)
    ensures
        r@ == values@,
{
    let mut acc: Vec<serde_json::Value> = Vec::new();
    let count = values.len();
    let mut i: usize = 0;
    while i < count
        invariant
            count == values@.len(),
            i <= count,
            acc@.len() == i,
            forall|j: int| 0 <= j < i ==> acc@[j] == values@[j],
        decreases count - i,
    {
        acc.push(values[i].clone());
        i = i + 1;
    }
    proof {
        assert(acc@ =~= values@);
    }
    acc
}

/// Translate a sequence of legacy expressions.
fn map_expressions(
    expressions: &Vec<Expression>,
    collection: &String,
    relationships: &Vec<TableRelationships>,
) -> (r: Result<Vec<ir::Expression>, TranslationError>)
    ensures
        match r {
            Ok(es) => spec_map_expressions(expressions@, collection@, relationships@) == Ok::<
                _,
                TranslationError,
            >(ir::expressions_view(es@)),
            Err(err) => spec_map_expressions(expressions@, collection@, relationships@) == Err::<
                Seq<ExpressionV>,
                _,
            >(err),
        },
    decreases expressions@,
{
    let mut acc: Vec<ir::Expression> = Vec::new();
    let count = expressions.len();
    let mut i: usize = 0;
    proof {
        assert(expressions@.subrange(0, 0) =~= Seq::<Expression>::empty());
    }
    while i < count
        invariant
            count == expressions@.len(),
            i <= count,
            spec_map_expressions(expressions@.subrange(0, i as int), collection@, relationships@)
                == Ok::<_, TranslationError>(ir::expressions_view(acc@)),
        decreases count - i,
    {
        let ghost prefix = expressions@.subrange(0, i as int);
        match map_expression(&expressions[i], collection, relationships) {
            Ok(e) => {
                proof {
                    let next = expressions@.subrange(0, i as int + 1);
                    assert(next.drop_last() =~= prefix);
                    assert(next.last() == expressions@[i as int]);
                    assert(acc@.push(e).drop_last() =~= acc@);
                }
                acc.push(e);
            },
            Err(err) => {
                proof {
                    let next = expressions@.subrange(0, i as int + 1);
                    assert(next.drop_last() =~= prefix);
                    assert(next.last() == expressions@[i as int]);
                    lemma_map_expressions_prefix_err(
                        expressions@,
                        collection@,
                        relationships@,
                        i as int + 1,
                    );
                }
                return Err(err);
            },
        }
        i = i + 1;
    }
    proof {
        assert(expressions@.subrange(0, count as int) =~= expressions@);
    }
    Ok(acc)
}

/// Translate a legacy boolean expression, scoped to a collection name and
/// the relationship groupings, into an IR expression.
pub fn map_expression(
    expression: &Expression,
    collection: &String,
    relationships: &Vec<TableRelationships>,
) -> (r: Result<ir::Expression, TranslationError>)
    ensures
        expr_result_view(r) == spec_map_expression(*expression, collection@, relationships@),
    decreases *expression,
{
    match expression {
        Expression::And { expressions } => match map_expressions(
            expressions,
            collection,
            relationships,
        ) {
            Ok(es) => Ok(ir::Expression::And { expressions: es }),
            Err(err) => Err(err),
        },
        Expression::Or { expressions } => match map_expressions(
            expressions,
            collection,
            relationships,
        ) {
            Ok(es) => Ok(ir::Expression::Or { expressions: es }),
            Err(err) => Err(err),
        },
        Expression::Not { expression: inner } => match map_expression(
            inner,
            collection,
            relationships,
        ) {
            Ok(e) => Ok(ir::Expression::Not { expression: Box::new(e) }),
            Err(err) => Err(err),
        },
        Expression::ApplyUnaryComparison { column, operator } => match map_comparison_column(
            column,
        ) {
            Ok(c) => match operator {
                UnaryComparisonOperator::IsNull => Ok(
                    ir::Expression::UnaryComparisonOperator {
                        column: c,
                        operator: ir::UnaryComparisonOperator::IsNull,
                    },
                ),
                UnaryComparisonOperator::Other(_) => Err(TranslationError::UnknownUnaryOperator),
            },
            Err(err) => Err(err),
        },
        Expression::ApplyBinaryComparison { column, operator, value } => match map_comparison_column(
            column,
        ) {
            Ok(c) => {
                let mapped_value: Result<ir::ComparisonValue, TranslationError> = match value {
                    ComparisonValue::Scalar { value: v, value_type: _ } => Ok(
                        ir::ComparisonValue::Scalar { value: v.clone() },
                    ),
                    ComparisonValue::Column { column: vc } => match map_comparison_column(vc) {
                        Ok(t) => Ok(ir::ComparisonValue::Column { column: t }),
                        Err(err) => Err(err),
                    },
                };
                match mapped_value {
                    Ok(v) => Ok(
                        ir::Expression::BinaryComparisonOperator {
                            column: c,
                            operator: binary_operator_name(operator),
                            value: v,
                        },
                    ),
                    Err(err) => Err(err),
                }
            },
            Err(err) => Err(err),
        },
        Expression::ApplyBinaryArrayComparison { column, operator, value_type: _, values } => match map_comparison_column(
            column,
        ) {
            Ok(c) => match operator {
                BinaryArrayComparisonOperator::In => Ok(
                    ir::Expression::BinaryComparisonOperator {
                        column: c,
                        operator: String::from_str("in"),
                        value: ir::ComparisonValue::Scalar {
                            value: crate::values::to_array_value(clone_values(values)),
                        },
                    },
                ),
                BinaryArrayComparisonOperator::Other(_) => Err(
                    TranslationError::UnknownArrayOperator,
                ),
            },
            Err(err) => Err(err),
        },
        Expression::Exists { in_table, where_clause } => match in_table {
            ExistsInTable::Unrelated { table } => match get_name(table) {
                Ok(name) => match map_expression(where_clause, &name, relationships) {
                    Ok(p) => {
                        let args: Vec<(String, ir::RelationshipArgument)> = Vec::new();
                        proof {
                            assert(ir::rel_arguments_view(args@) =~= Seq::empty());
                        }
                        Ok(
                            ir::Expression::Exists {
                                in_collection: ir::ExistsInCollection::Unrelated {
                                    collection: name,
                                    arguments: args,
                                },
                                predicate: Some(Box::new(p)),
                            },
                        )
                    },
                    Err(err) => Err(err),
                },
                Err(err) => Err(err),
            },
            ExistsInTable::Related { relationship } => match get_relationship_collection_arguments(
                collection,
                relationship,
                relationships,
            ) {
                Ok((target_table, arguments)) => match map_expression(
                    where_clause,
                    &target_table,
                    relationships,
                ) {
                    Ok(p) => Ok(
                        ir::Expression::Exists {
                            in_collection: ir::ExistsInCollection::Related {
                                relationship: join_key(collection, relationship),
                                arguments,
                            },
                            predicate: Some(Box::new(p)),
                        },
                    ),
                    Err(err) => Err(err),
                },
                Err(err) => Err(err),
            },
        },
    }
}

// ---------------------------------------------------------------------------
// Order-by paths.
// ---------------------------------------------------------------------------

/// The mirror of an ordering-path result.
pub open spec fn path_result_view(r: Result<Vec<ir::PathElement>, TranslationError>) -> Result<
    Seq<PathElementV>,
    TranslationError,
> {
    match r {
        Ok(p) => Ok(ir::path_view(p@)),
        Err(e) => Err(e),
    }
}

/// The first entry of a relation-filter vector whose key is the given
/// segment name.
pub open spec fn spec_find_order_relation(
    entries: Seq<(String, OrderByRelation)>,
    name: Seq<char>,
) -> Option<OrderByRelation>
    decreases entries,
{
    if entries.len() == 0 {
        None
    } else if entries[0].0@ == name {
        Some(entries[0].1)
    } else {
        spec_find_order_relation(entries.drop_first(), name)
    }
}

/// Find the index of the named segment in a relation-filter vector.
fn find_order_relation_index(
    entries: &Vec<(String, OrderByRelation)>,
    name: &String,
) -> (r: Option<usize>)
    ensures
        match r {
            Some(i) => i < entries@.len() && spec_find_order_relation(entries@, name@) == Some(
                entries@[i as int].1,
            ),
            None => spec_find_order_relation(entries@, name@) is None,
        },
{
    let count = entries.len();
    proof {
        assert(entries@.subrange(0, count as int) =~= entries@);
    }
    let mut i: usize = 0;
    while i < count
        invariant
            count == entries@.len(),
            i <= count,
            spec_find_order_relation(entries@, name@) == spec_find_order_relation(
                entries@.subrange(i as int, count as int),
                name@,
            ),
        decreases count - i,
    {
        proof {
            assert(entries@.subrange(i as int, count as int)[0] == entries@[i as int]);
        }
        if entries[i].0 == *name {
            return Some(i);
        }
        proof {
            assert(entries@.subrange(i as int, count as int).drop_first() =~= entries@.subrange(
                i as int + 1,
                count as int,
            ));
        }
        i = i + 1;
    }
    None
}

/// The IR path an order-by relationship path translates to.  The segments
/// are walked left to right, carrying the current collection and the current
/// relation-filter subtree; each segment must name an entry of the subtree
/// and a resolvable relationship of the current collection, and emits one
/// path element with the flattened key, the relationship's arguments, and
/// the subtree entry's filter translated against the target collection.
pub open spec fn spec_map_order_by_path(
    path: Seq<String>,
    relations: Seq<(String, OrderByRelation)>,
    collection: Seq<char>,
    rels: Seq<TableRelationships>,
) -> Result<Seq<PathElementV>, TranslationError>
    decreases path.len(),
{
    if path.len() == 0 {
        Ok(Seq::empty())
    } else {
        let segment = path[0]@;
        match spec_find_order_relation(relations, segment) {
            None => Err(TranslationError::OrderByRelationNotFound),
            Some(relation) => match spec_get_relationship_collection_arguments(
                collection,
                segment,
                rels,
            ) {
                Err(e) => Err(e),
                Ok((target_table, arguments)) => {
                    let pred = match relation.where_clause {
                        None => Ok(None),
                        Some(w) => match spec_map_expression(w, target_table, rels) {
                            Ok(p) => Ok(Some(Box::new(p))),
                            Err(e) => Err(e),
                        },
                    };
                    match pred {
                        Err(e) => Err(e),
                        Ok(p) => match spec_map_order_by_path(
                            path.drop_first(),
                            relation.subrelations@,
                            target_table,
                            rels,
                        ) {
                            Err(e) => Err(e),
                            Ok(rest) => Ok(
                                seq![
                                    PathElementV {
                                        relationship: joined_key(collection, segment),
                                        arguments,
                                        predicate: p,
                                    },
                                ] + rest,
                            ),
                        },
                    }
                },
            },
        }
    }
}

/// Translate the order-by path segments from the given position on.
fn map_order_by_path_from(
    path: &Vec<String>,
    idx: usize,
    relations: &Vec<(String, OrderByRelation)>,
    collection: &String,
    relationships: &Vec<TableRelationships>,
) -> (r: Result<Vec<ir::PathElement>, TranslationError>)
    requires
        idx <= path@.len(),
    ensures
        path_result_view(r) == spec_map_order_by_path(
            path@.skip(idx as int),
            relations@,
            collection@,
            relationships@,
        ),
    decreases path@.len() - idx,
{
    if idx == path.len() {
        let out: Vec<ir::PathElement> = Vec::new();
        proof {
            assert(ir::path_view(out@) =~= Seq::<PathElementV>::empty());
        }
        Ok(out)
    } else {
        let ghost rest_of_path = path@.skip(idx as int);
        proof {
            assert(rest_of_path[0] == path@[idx as int]);
            assert(rest_of_path.drop_first() =~= path@.skip(idx as int + 1));
        }
        let segment = &path[idx];
        match find_order_relation_index(relations, segment) {
            None => Err(TranslationError::OrderByRelationNotFound),
            Some(ri) => {
                let relation = &relations[ri].1;
                match get_relationship_collection_arguments(collection, segment, relationships) {
                    Err(e) => Err(e),
                    Ok((target_table, arguments)) => {
                        let pred: Result<Option<Box<ir::Expression>>, TranslationError> = match &relation.where_clause {
                            None => Ok(None),
                            Some(w) => match map_expression(w, &target_table, relationships) {
                                Ok(p) => Ok(Some(Box::new(p))),
                                Err(e) => Err(e),
                            },
                        };
                        match pred {
                            Err(e) => Err(e),
                            Ok(p) => match map_order_by_path_from(
                                path,
                                idx + 1,
                                &relation.subrelations,
                                &target_table,
                                relationships,
                            ) {
                                Err(e) => Err(e),
                                Ok(mut rest) => {
                                    let mut out: Vec<ir::PathElement> = Vec::new();
                                    out.push(
                                        ir::PathElement {
                                            relationship: join_key(collection, segment),
                                            arguments,
                                            predicate: p,
                                        },
                                    );
                                    let ghost first = out@[0];
                                    let ghost rest0 = rest@;
                                    out.append(&mut rest);
                                    proof {
                                        assert(out@ =~= seq![first] + rest0);
                                        assert(ir::path_view(out@) =~= seq![
                                            ir::path_element_view(first),
                                        ] + ir::path_view(rest0));
                                    }
                                    Ok(out)
                                },
                            },
                        }
                    },
                }
            },
        }
    }
}

/// Translate an order-by relationship path into IR path elements.
pub fn map_order_by_path(
    path: &Vec<String>,
    relations: &Vec<(String, OrderByRelation)>,
    collection: &String,
    relationships: &Vec<TableRelationships>,
) -> (r: Result<Vec<ir::PathElement>, TranslationError>)
    ensures
        path_result_view(r) == spec_map_order_by_path(
            path@,
            relations@,
            collection@,
            relationships@,
        ),
{
    proof {
        assert(path@.skip(0) =~= path@);
    }
    map_order_by_path_from(path, 0, relations, collection, relationships)
}

// ---------------------------------------------------------------------------
// Order-by elements.
// ---------------------------------------------------------------------------

/// The IR direction a legacy sort direction translates to.
pub open spec fn spec_map_order_direction(d: OrderDirection) -> ir::OrderDirection {
    match d {
        OrderDirection::Asc => ir::OrderDirection::Asc,
        OrderDirection::Desc => ir::OrderDirection::Desc,
    }
}

/// The IR ordering element a legacy ordering element translates to: its
/// path is walked through the relation-filter tree, and its terminal target
/// is resolved alongside, dropping the legacy result-type annotation.
pub open spec fn spec_map_order_by_element(
    element: OrderByElement,
    relations: Seq<(String, OrderByRelation)>,
    collection: Seq<char>,
    rels: Seq<TableRelationships>,
) -> Result<OrderByElementV, TranslationError> {
    let direction = spec_map_order_direction(element.order_direction);
    match element.target {
        OrderByTarget::StarCountAggregate {} => match spec_map_order_by_path(
            element.target_path@,
            relations,
            collection,
            rels,
        ) {
            Ok(p) => Ok(OrderByElementV {
                order_direction: direction,
                target: OrderByTargetV::StarCountAggregate { path: p },
            }),
            Err(e) => Err(e),
        },
        OrderByTarget::SingleColumnAggregate { column, function, result_type: _ } => match spec_map_order_by_path(
            element.target_path@,
            relations,
            collection,
            rels,
        ) {
            Ok(p) => Ok(OrderByElementV {
                order_direction: direction,
                target: OrderByTargetV::SingleColumnAggregate {
                    column: column@,
                    function: function@,
                    path: p,
                },
            }),
            Err(e) => Err(e),
        },
        OrderByTarget::Column { column } => match spec_get_col_name(column) {
            Ok(name) => match spec_map_order_by_path(element.target_path@, relations, collection, rels) {
                Ok(p) => Ok(OrderByElementV {
                    order_direction: direction,
                    target: OrderByTargetV::Column { name, path: p },
                }),
                Err(e) => Err(e),
            },
            Err(e) => Err(e),
        },
    }
}

/// The IR ordering elements a sequence of legacy elements translates to,
/// or the first failure among them.
pub open spec fn spec_map_order_by_elements(
    elements: Seq<OrderByElement>,
    relations: Seq<(String, OrderByRelation)>,
    collection: Seq<char>,
    rels: Seq<TableRelationships>,
) -> Result<Seq<OrderByElementV>, TranslationError>
    decreases elements,
{
    if elements.len() == 0 {
        Ok(Seq::empty())
    } else {
        match spec_map_order_by_elements(elements.drop_last(), relations, collection, rels) {
            Ok(vs) => match spec_map_order_by_element(elements.last(), relations, collection, rels) {
                Ok(v) => Ok(vs.push(v)),
                Err(e) => Err(e),
            },
            Err(e) => Err(e),
        }
    }
}

/// A failing prefix decides the whole element sequence's translation.
proof fn lemma_map_order_by_elements_prefix_err(
    elements: Seq<OrderByElement>,
    relations: Seq<(String, OrderByRelation)>,
    collection: Seq<char>,
    rels: Seq<TableRelationships>,
    k: int,
)
    requires
        0 <= k <= elements.len(),
        spec_map_order_by_elements(elements.subrange(0, k), relations, collection, rels) is Err,
    ensures
        spec_map_order_by_elements(elements, relations, collection, rels)
            == spec_map_order_by_elements(elements.subrange(0, k), relations, collection, rels),
    decreases elements.len(),
{
    if elements.len() == k {
        assert(elements.subrange(0, k) =~= elements);
    } else {
        assert(elements.drop_last().subrange(0, k) =~= elements.subrange(0, k));
        lemma_map_order_by_elements_prefix_err(
            elements.drop_last(),
            relations,
            collection,
            rels,
            k,
        );
    }
}

/// The IR ordering specification a legacy one translates to.
pub open spec fn spec_map_order_by(
    order_by: OrderBy,
    collection: Seq<char>,
    rels: Seq<TableRelationships>,
) -> Result<OrderByV, TranslationError> {
    match spec_map_order_by_elements(order_by.elements@, order_by.relations@, collection, rels) {
        Ok(es) => Ok(OrderByV { elements: es }),
        Err(e) => Err(e),
    }
}

/// Translate one legacy ordering element.
fn map_order_by_element(
    element: &OrderByElement,
    relations: &Vec<(String, OrderByRelation)>,
    collection: &String,
    relationships: &Vec<TableRelationships>,
) -> (r: Result<ir::OrderByElement, TranslationError>)
    ensures
        match r {
            Ok(e) => spec_map_order_by_element(*element, relations@, collection@, relationships@)
                == Ok::<_, TranslationError>(ir::order_by_element_view(e)),
            Err(err) => spec_map_order_by_element(*element, relations@, collection@, relationships@)
                == Err::<OrderByElementV, _>(err),
        },
{
    let direction = match element.order_direction {
        OrderDirection::Asc => ir::OrderDirection::Asc,
        OrderDirection::Desc => ir::OrderDirection::Desc,
    };
    match &element.target {
        OrderByTarget::StarCountAggregate {} => match map_order_by_path(
            &element.target_path,
            relations,
            collection,
            relationships,
        ) {
            Ok(p) => Ok(
                ir::OrderByElement {
                    order_direction: direction,
                    target: ir::OrderByTarget::StarCountAggregate { path: p },
                },
            ),
            Err(e) => Err(e),
        },
        OrderByTarget::SingleColumnAggregate { column, function, result_type: _ } => match map_order_by_path(
            &element.target_path,
            relations,
            collection,
            relationships,
        ) {
            Ok(p) => Ok(
                ir::OrderByElement {
                    order_direction: direction,
                    target: ir::OrderByTarget::SingleColumnAggregate {
                        column: column.clone(),
                        function: function.clone(),
                        path: p,
                    },
                },
            ),
            Err(e) => Err(e),
        },
        OrderByTarget::Column { column } => match get_col_name(column) {
            Ok(name) => match map_order_by_path(
                &element.target_path,
                relations,
                collection,
                relationships,
            ) {
                Ok(p) => Ok(
                    ir::OrderByElement {
                        order_direction: direction,
                        target: ir::OrderByTarget::Column { name, path: p },
                    },
                ),
                Err(e) => Err(e),
            },
            Err(e) => Err(e),
        },
    }
}

/// Translate a legacy ordering specification.
fn map_order_by(
    order_by: &OrderBy,
    collection: &String,
    relationships: &Vec<TableRelationships>,
) -> (r: Result<ir::OrderBy, TranslationError>)
    ensures
        match r {
            Ok(o) => spec_map_order_by(*order_by, collection@, relationships@) == Ok::<
                _,
                TranslationError,
            >(ir::order_by_view(o)),
            Err(err) => spec_map_order_by(*order_by, collection@, relationships@) == Err::<
                OrderByV,
                _,
            >(err),
        },
{
    let mut acc: Vec<ir::OrderByElement> = Vec::new();
    let count = order_by.elements.len();
    let mut i: usize = 0;
    proof {
        assert(order_by.elements@.subrange(0, 0) =~= Seq::<OrderByElement>::empty());
        assert(acc@.map_values(|e: ir::OrderByElement| ir::order_by_element_view(e)) =~= Seq::<
            OrderByElementV,
        >::empty());
    }
    while i < count
        invariant
            count == order_by.elements@.len(),
            i <= count,
            acc@.len() == i,
            spec_map_order_by_elements(
                order_by.elements@.subrange(0, i as int),
                order_by.relations@,
                collection@,
                relationships@,
            ) == Ok::<_, TranslationError>(
                acc@.map_values(|e: ir::OrderByElement| ir::order_by_element_view(e)),
            ),
        decreases count - i,
    {
        let ghost prefix = order_by.elements@.subrange(0, i as int);
        match map_order_by_element(
            &order_by.elements[i],
            &order_by.relations,
            collection,
            relationships,
        ) {
            Ok(e) => {
                proof {
                    let next = order_by.elements@.subrange(0, i as int + 1);
                    assert(next.drop_last() =~= prefix);
                    assert(next.last() == order_by.elements@[i as int]);
                    assert(acc@.push(e).map_values(
                        |x: ir::OrderByElement| ir::order_by_element_view(x),
                    ) =~= acc@.map_values(|x: ir::OrderByElement| ir::order_by_element_view(x)).push(
                        ir::order_by_element_view(e),
                    ));
                }
                acc.push(e);
            },
            Err(err) => {
                proof {
                    let next = order_by.elements@.subrange(0, i as int + 1);
                    assert(next.drop_last() =~= prefix);
                    assert(next.last() == order_by.elements@[i as int]);
                    lemma_map_order_by_elements_prefix_err(
                        order_by.elements@,
                        order_by.relations@,
                        collection@,
                        relationships@,
                        i as int + 1,
                    );
                }
                return Err(err);
            },
        }
        i = i + 1;
    }
    proof {
        assert(order_by.elements@.subrange(0, count as int) =~= order_by.elements@);
    }
    Ok(ir::OrderBy { elements: acc })
}

// ---------------------------------------------------------------------------
// Aggregates.
// ---------------------------------------------------------------------------

/// The IR aggregate a legacy aggregate translates to: the three variants
/// map one to one, dropping the legacy result-type annotation.
pub open spec fn spec_map_aggregate(a: Aggregate) -> AggregateV {
    match a {
        Aggregate::ColumnCount { column, distinct } => AggregateV::ColumnCount {
            column: column@,
            distinct,
        },
        Aggregate::SingleColumn { column, function, result_type: _ } => AggregateV::SingleColumn {
            column: column@,
            function: function@,
        },
        Aggregate::StarCount {} => AggregateV::StarCount {},
    }
}

/// The IR aggregate map a legacy aggregate map translates to.
pub open spec fn spec_map_aggregates(s: Seq<(String, Aggregate)>) -> Seq<(Seq<char>, AggregateV)> {
    s.map_values(|p: (String, Aggregate)| (p.0@, spec_map_aggregate(p.1)))
}

/// Translate a legacy aggregate map.
fn map_aggregates(aggregates: &Vec<(String, Aggregate)>) -> (r: Vec<(String, ir::Aggregate)>)
    ensures
        ir::aggregates_view(r@) == spec_map_aggregates(aggregates@),
{
    let mut acc: Vec<(String, ir::Aggregate)> = Vec::new();
    let count = aggregates.len();
    let mut i: usize = 0;
    while i < count
        invariant
            count == aggregates@.len(),
            i <= count,
            acc@.len() == i,
            forall|j: int|
                0 <= j < i ==> (#[trigger] acc@[j].0@, ir::aggregate_view(acc@[j].1))
                    == (aggregates@[j].0@, spec_map_aggregate(aggregates@[j].1)),
        decreases count - i,
    {
        let entry = &aggregates[i];
        let mapped = match &entry.1 {
            Aggregate::ColumnCount { column, distinct } => ir::Aggregate::ColumnCount {
                column: column.clone(),
                distinct: *distinct,
            },
            Aggregate::SingleColumn { column, function, result_type: _ } => ir::Aggregate::SingleColumn {
                column: column.clone(),
                function: function.clone(),
            },
            Aggregate::StarCount {} => ir::Aggregate::StarCount {},
        };
        acc.push((entry.0.clone(), mapped));
        i = i + 1;
    }
    proof {
        assert(ir::aggregates_view(acc@) =~= spec_map_aggregates(aggregates@));
    }
    acc
}

// ---------------------------------------------------------------------------
// Limits.
// ---------------------------------------------------------------------------

/// The single IR limit the two legacy limits reconcile to: with neither set
/// there is none; `aggregates_limit` applies only when no plain fields are
/// requested; `limit` applies only when no aggregates are requested; both
/// set is always a conflict.
pub open spec fn spec_resolve_limit(
    limit: Option<i64>,
    aggregates_limit: Option<i64>,
    has_fields: bool,
    has_aggregates: bool,
) -> Result<Option<i64>, TranslationError> {
    match (limit, aggregates_limit) {
        (None, None) => Ok(None),
        (None, Some(al)) => if !has_fields {
            Ok(Some(al))
        } else {
            Err(TranslationError::AggregatesLimitWithFields)
        },
        (Some(l), None) => if !has_aggregates {
            Ok(Some(l))
        } else {
            Err(TranslationError::FieldsLimitWithAggregates)
        },
        (Some(_), Some(_)) => Err(TranslationError::ConflictingLimits),
    }
}

/// The unsigned 32-bit value a legacy limit or offset converts to, when it
/// fits that range.
pub open spec fn spec_to_u32(v: i64, out_of_range: TranslationError) -> Result<
    u32,
    TranslationError,
> {
    if 0 <= v <= u32::MAX {
        Ok(v as u32)
    } else {
        Err(out_of_range)
    }
}

/// Convert a legacy limit or offset into the IR's unsigned 32-bit range.
fn to_u32(v: i64, out_of_range: TranslationError) -> (r: Result<u32, TranslationError>)
    ensures
        r == spec_to_u32(v, out_of_range),
{
    if v >= 0 && v <= u32::MAX as i64 {
        Ok(v as u32)
    } else {
        Err(out_of_range)
    }
}

// ---------------------------------------------------------------------------
// Fields and query nodes.
// ---------------------------------------------------------------------------

/// The mirror of an optional foreach predicate.
pub open spec fn opt_expression_view(e: Option<ir::Expression>) -> Option<ExpressionV> {
    match e {
        Some(x) => Some(ir::expression_view(x)),
        None => None,
    }
}

/// The mirror of a query-node result.
pub open spec fn query_result_view(r: Result<ir::Query, TranslationError>) -> Result<
    QueryV,
    TranslationError,
> {
    match r {
        Ok(q) => Ok(ir::query_view(q)),
        Err(e) => Err(e),
    }
}

/// The IR field a legacy field translates to: a plain column drops its type
/// annotation; a relationship field resolves its target, translates its
/// nested query against the target collection with no foreach predicate,
/// and renames the relationship to the flattened registry key; structured
/// object and array fields are not translatable.
pub open spec fn spec_map_field(
    f: Field,
    collection: Seq<char>,
    rels: Seq<TableRelationships>,
) -> Result<FieldV, TranslationError>
    decreases f,
{
    match f {
        Field::Column { column, column_type: _ } => Ok(FieldV::Column { column: column@ }),
        Field::Relationship { query, relationship } => match spec_get_relationship_collection_arguments(
            collection,
            relationship@,
            rels,
        ) {
            Err(e) => Err(e),
            Ok((target_collection, arguments)) => match spec_map_query(
                query,
                target_collection,
                rels,
                None,
            ) {
                Err(e) => Err(e),
                Ok(q) => Ok(FieldV::Relationship {
                    query: Box::new(q),
                    relationship: joined_key(collection, relationship@),
                    arguments,
                }),
            },
        },
        Field::Object { .. } => Err(TranslationError::ObjectFieldsUnsupported),
        Field::Array { .. } => Err(TranslationError::ArrayFieldsUnsupported),
    }
}

/// The IR field map a legacy field map translates to, or the first failure
/// among its entries.
pub open spec fn spec_map_fields(
    s: Seq<(String, Field)>,
    collection: Seq<char>,
    rels: Seq<TableRelationships>,
) -> Result<Seq<(Seq<char>, FieldV)>, TranslationError>
    decreases s,
{
    if s.len() == 0 {
        Ok(Seq::empty())
    } else {
        match spec_map_fields(s.drop_last(), collection, rels) {
            Ok(vs) => match spec_map_field(s.last().1, collection, rels) {
                Ok(v) => Ok(vs.push((s.last().0@, v))),
                Err(e) => Err(e),
            },
            Err(e) => Err(e),
        }
    }
}

/// The IR query node a legacy query node translates to, or the first
/// failure found: ordering first, then aggregates and fields, then the
/// limit reconciliation and range checks, then the predicate, which is
/// conjoined with the caller's foreach predicate when both are present.
pub open spec fn spec_map_query(
    q: Query,
    collection: Seq<char>,
    rels: Seq<TableRelationships>,
    foreach_expr: Option<ExpressionV>,
) -> Result<QueryV, TranslationError>
    decreases q,
{
    let order_by_r = match q.order_by {
        None => Ok(None),
        Some(ob) => match spec_map_order_by(ob, collection, rels) {
            Ok(o) => Ok(Some(o)),
            Err(e) => Err(e),
        },
    };
    match order_by_r {
        Err(e) => Err(e),
        Ok(order_by) => {
            let aggregates = match q.aggregates {
                None => None,
                Some(a) => Some(spec_map_aggregates(a@)),
            };
            let fields_r = match q.fields {
                None => Ok(None),
                Some(f) => match spec_map_fields(f@, collection, rels) {
                    Ok(fs) => Ok(Some(fs)),
                    Err(e) => Err(e),
                },
            };
            match fields_r {
                Err(e) => Err(e),
                Ok(fields) => match spec_resolve_limit(
                    q.limit,
                    q.aggregates_limit,
                    q.fields is Some,
                    q.aggregates is Some,
                ) {
                    Err(e) => Err(e),
                    Ok(applicable_limit) => {
                        let limit_r = match applicable_limit {
                            None => Ok(None),
                            Some(l) => match spec_to_u32(l, TranslationError::LimitOutOfRange) {
                                Ok(u) => Ok(Some(u)),
                                Err(e) => Err(e),
                            },
                        };
                        match limit_r {
                            Err(e) => Err(e),
                            Ok(limit) => {
                                let offset_r = match q.offset {
                                    None => Ok(None),
                                    Some(o) => match spec_to_u32(
                                        o,
                                        TranslationError::OffsetOutOfRange,
                                    ) {
                                        Ok(u) => Ok(Some(u)),
                                        Err(e) => Err(e),
                                    },
                                };
                                match offset_r {
                                    Err(e) => Err(e),
                                    Ok(offset) => {
                                        let where_r = match q.where_clause {
                                            None => Ok(None),
                                            Some(w) => match spec_map_expression(
                                                w,
                                                collection,
                                                rels,
                                            ) {
                                                Ok(p) => Ok(Some(p)),
                                                Err(e) => Err(e),
                                            },
                                        };
                                        match where_r {
                                            Err(e) => Err(e),
                                            Ok(wpred) => {
                                                let predicate = match (wpred, foreach_expr) {
                                                    (None, None) => None,
                                                    (None, Some(f)) => Some(f),
                                                    (Some(p), None) => Some(p),
                                                    (Some(p), Some(f)) => Some(
                                                        ExpressionV::And {
                                                            expressions: seq![p, f],
                                                        },
                                                    ),
                                                };
                                                Ok(
                                                    QueryV {
                                                        aggregates,
                                                        fields,
                                                        limit,
                                                        offset,
                                                        order_by,
                                                        predicate,
                                                    },
                                                )
                                            },
                                        }
                                    },
                                }
                            },
                        }
                    },
                },
            }
        },
    }
}

/// A failing prefix decides the whole field map's translation.
proof fn lemma_map_fields_prefix_err(
    s: Seq<(String, Field)>,
    collection: Seq<char>,
    rels: Seq<TableRelationships>,
    k: int,
)
    requires
        0 <= k <= s.len(),
        spec_map_fields(s.subrange(0, k), collection, rels) is Err,
    ensures
        spec_map_fields(s, collection, rels) == spec_map_fields(s.subrange(0, k), collection, rels),
    decreases s.len(),
{
    if s.len() == k {
        assert(s.subrange(0, k) =~= s);
    } else {
        assert(s.drop_last().subrange(0, k) =~= s.subrange(0, k));
        lemma_map_fields_prefix_err(s.drop_last(), collection, rels, k);
    }
}

/// Translate one legacy field.
fn map_field(
    f: &Field,
    collection: &String,
    relationships: &Vec<TableRelationships>,
) -> (r: Result<ir::Field, TranslationError>)
    ensures
        match r {
            Ok(x) => spec_map_field(*f, collection@, relationships@) == Ok::<_, TranslationError>(
                ir::field_view(x),
            ),
            Err(err) => spec_map_field(*f, collection@, relationships@) == Err::<FieldV, _>(err),
        },
    decreases *f,
{
    match f {
        Field::Column { column, column_type: _ } => Ok(ir::Field::Column { column: column.clone() }),
        Field::Relationship { query, relationship } => match get_relationship_collection_arguments(
            collection,
            relationship,
            relationships,
        ) {
            Err(e) => Err(e),
            Ok((target_collection, arguments)) => match map_query(
                query,
                &target_collection,
                relationships,
                None,
            ) {
                Err(e) => Err(e),
                Ok(q) => Ok(
                    ir::Field::Relationship {
                        query: Box::new(q),
                        relationship: join_key(collection, relationship),
                        arguments,
                    },
                ),
            },
        },
        Field::Object { .. } => Err(TranslationError::ObjectFieldsUnsupported),
        Field::Array { .. } => Err(TranslationError::ArrayFieldsUnsupported),
    }
}

/// Translate a legacy field map.
fn map_fields(
    fields: &Vec<(String, Field)>,
    collection: &String,
    relationships: &Vec<TableRelationships>,
) -> (r: Result<Vec<(String, ir::Field)>, TranslationError>)
    ensures
        match r {
            Ok(fs) => spec_map_fields(fields@, collection@, relationships@) == Ok::<
                _,
                TranslationError,
            >(ir::fields_view(fs@)),
            Err(err) => spec_map_fields(fields@, collection@, relationships@) == Err::<
                Seq<(Seq<char>, FieldV)>,
                _,
            >(err),
        },
    decreases fields@,
{
    let mut acc: Vec<(String, ir::Field)> = Vec::new();
    let count = fields.len();
    let mut i: usize = 0;
    proof {
        assert(fields@.subrange(0, 0) =~= Seq::<(String, Field)>::empty());
    }
    while i < count
        invariant
            count == fields@.len(),
            i <= count,
            spec_map_fields(fields@.subrange(0, i as int), collection@, relationships@) == Ok::<
                _,
                TranslationError,
            >(ir::fields_view(acc@)),
        decreases count - i,
    {
        let ghost prefix = fields@.subrange(0, i as int);
        let entry = &fields[i];
        let mapped = map_field(&entry.1, collection, relationships);
        match mapped {
            Ok(f) => {
                let key = entry.0.clone();
                let ghost acc0 = acc@;
                let ghost fv = ir::field_view(f);
                acc.push((key, f));
                proof {
                    let next = fields@.subrange(0, i as int + 1);
                    assert(next.drop_last() =~= prefix);
                    assert(next.last() == fields@[i as int]);
                    assert(acc@.drop_last() =~= acc0);
                    assert(ir::fields_view(acc@) == ir::fields_view(acc0).push(
                        (entry.0@, fv),
                    ));
                }
            },
            Err(err) => {
                proof {
                    let next = fields@.subrange(0, i as int + 1);
                    assert(next.drop_last() =~= prefix);
                    assert(next.last() == fields@[i as int]);
                    assert(spec_map_fields(next, collection@, relationships@) is Err);
                    lemma_map_fields_prefix_err(
                        fields@,
                        collection@,
                        relationships@,
                        i as int + 1,
                    );
                }
                return Err(err);
            },
        }
        i = i + 1;
    }
    proof {
        assert(fields@.subrange(0, count as int) =~= fields@);
    }
    Ok(acc)
}

/// Translate a legacy query node, scoped to a collection name and the
/// relationship groupings, into an IR query node.  The foreach predicate,
/// present only at the root of a request, is conjoined with the node's own
/// predicate.
pub fn map_query(
    query: &Query,
    collection: &String,
    relationships: &Vec<TableRelationships>,
    foreach_expr: Option<ir::Expression>,
) -> (r: Result<ir::Query, TranslationError>)
    ensures
        query_result_view(r) == spec_map_query(
            *query,
            collection@,
            relationships@,
            opt_expression_view(foreach_expr),
        ),
    decreases *query,
{
    let ghost foreach_v = opt_expression_view(foreach_expr);
    let order_by: Option<ir::OrderBy> = match &query.order_by {
        None => None,
        Some(ob) => match map_order_by(ob, collection, relationships) {
            Ok(o) => Some(o),
            Err(e) => {
                return Err(e);
            },
        },
    };
    let aggregates: Option<Vec<(String, ir::Aggregate)>> = match &query.aggregates {
        None => None,
        Some(a) => Some(map_aggregates(a)),
    };
    let fields: Option<Vec<(String, ir::Field)>> = match &query.fields {
        None => None,
        Some(f) => match map_fields(f, collection, relationships) {
            Ok(fs) => Some(fs),
            Err(e) => {
                return Err(e);
            },
        },
    };
    let applicable_limit: Option<i64> = match (query.limit, query.aggregates_limit) {
        (None, None) => None,
        (None, Some(al)) => {
            if fields.is_none() {
                Some(al)
            } else {
                return Err(TranslationError::AggregatesLimitWithFields);
            }
        },
        (Some(l), None) => {
            if aggregates.is_none() {
                Some(l)
            } else {
                return Err(TranslationError::FieldsLimitWithAggregates);
            }
        },
        (Some(_), Some(_)) => {
            return Err(TranslationError::ConflictingLimits);
        },
    };
    let limit: Option<u32> = match applicable_limit {
        None => None,
        Some(l) => match to_u32(l, TranslationError::LimitOutOfRange) {
            Ok(u) => Some(u),
            Err(e) => {
                return Err(e);
            },
        },
    };
    let offset: Option<u32> = match query.offset {
        None => None,
        Some(o) => match to_u32(o, TranslationError::OffsetOutOfRange) {
            Ok(u) => Some(u),
            Err(e) => {
                return Err(e);
            },
        },
    };
    let mapped_where: Option<ir::Expression> = match &query.where_clause {
        None => None,
        Some(w) => match map_expression(w, collection, relationships) {
            Ok(p) => Some(p),
            Err(e) => {
                return Err(e);
            },
        },
    };
    let predicate: Option<ir::Expression> = match (mapped_where, foreach_expr) {
        (None, None) => None,
        (None, Some(f)) => Some(f),
        (Some(p), None) => Some(p),
        (Some(p), Some(f)) => {
            let ghost pv = ir::expression_view(p);
            let ghost fv = ir::expression_view(f);
            let mut conjuncts: Vec<ir::Expression> = Vec::new();
            conjuncts.push(p);
            conjuncts.push(f);
            proof {
                assert(conjuncts@.drop_last() =~= seq![conjuncts@[0]]);
                assert(seq![conjuncts@[0]].drop_last() =~= Seq::<ir::Expression>::empty());
                assert(ir::expressions_view(Seq::<ir::Expression>::empty()) =~= Seq::<
                    ExpressionV,
                >::empty());
                assert(ir::expressions_view(seq![conjuncts@[0]]) =~= seq![pv]);
                assert(ir::expressions_view(conjuncts@) =~= seq![pv, fv]);
            }
            Some(ir::Expression::And { expressions: conjuncts })
        },
    };
    let out = ir::Query { aggregates, fields, limit, offset, order_by, predicate };
    proof {
        let s = spec_map_query(*query, collection@, relationships@, foreach_v);
        match s {
            Ok(qv) => {
                assert(ir::query_view(out) =~~= qv);
            },
            Err(_) => {
                assert(false);
            },
        }
    }
    Ok(out)
}

// ---------------------------------------------------------------------------
// Foreach batches.
// ---------------------------------------------------------------------------

/// The equality term synthesized for one foreach binding key: the column of
/// that name on the current collection equals the variable of that name.
pub open spec fn spec_foreach_eq_term(key: Seq<char>) -> ExpressionV {
    ExpressionV::BinaryComparisonOperator {
        column: ComparisonTargetV::Column { name: key, path: Seq::empty() },
        operator: "equal"@,
        value: ComparisonValueV::Variable { name: key },
    }
}

/// The predicate synthesized from a foreach batch: the conjunction of one
/// equality term per key of the first binding row; a single term stands
/// alone, and no rows or no keys synthesize nothing.
pub open spec fn spec_foreach_expr(foreach: Option<Vec<Vec<(String, ScalarValue)>>>) -> Option<
    ExpressionV,
> {
    match foreach {
        None => None,
        Some(rows) => if rows@.len() == 0 {
            None
        } else {
            let terms = rows@[0]@.map_values(|p: (String, ScalarValue)| spec_foreach_eq_term(p.0@));
            if terms.len() > 1 {
                Some(ExpressionV::And { expressions: terms })
            } else if terms.len() == 1 {
                Some(terms[0])
            } else {
                None
            }
        },
    }
}

/// The variable-binding list a foreach batch translates to: one binding map
/// per row, each value stripped of its legacy type annotation.
pub open spec fn spec_variables(foreach: Option<Vec<Vec<(String, ScalarValue)>>>) -> Option<
    Seq<Seq<(Seq<char>, serde_json::Value)>>,
> {
    match foreach {
        None => None,
        Some(rows) => Some(
            rows@.map_values(
                |row: Vec<(String, ScalarValue)>| row@.map_values(
                    |p: (String, ScalarValue)| (p.0@, p.1.value),
                ),
            ),
        ),
    }
}

/// Build the equality term for one foreach binding key.
fn foreach_eq_term(key: &String) -> (r: ir::Expression)
    ensures
        ir::expression_view(r) == spec_foreach_eq_term(key@),
{
    let r = ir::Expression::BinaryComparisonOperator {
        column: ir::ComparisonTarget::Column { name: key.clone(), path: Vec::new() },
        operator: String::from_str("equal"),
        value: ir::ComparisonValue::Variable { name: key.clone() },
    };
    proof {
        assert(ir::expression_view(r) =~~= spec_foreach_eq_term(key@));
    }
    r
}

/// Synthesize the foreach predicate of a request.
fn foreach_expr(foreach: &Option<Vec<Vec<(String, ScalarValue)>>>) -> (r: Option<ir::Expression>)
    ensures
        opt_expression_view(r) == spec_foreach_expr(*foreach),
{
    match foreach {
        None => None,
        Some(rows) => {
            if rows.len() == 0 {
                None
            } else {
                let first = &rows[0];
                let mut terms: Vec<ir::Expression> = Vec::new();
                let count = first.len();
                let mut i: usize = 0;
                proof {
                    assert(ir::expressions_view(terms@) =~= first@.subrange(0, 0).map_values(
                        |p: (String, ScalarValue)| spec_foreach_eq_term(p.0@),
                    ));
                }
                while i < count
                    invariant
                        count == first@.len(),
                        i <= count,
                        terms@.len() == i,
                        ir::expressions_view(terms@) =~= first@.subrange(0, i as int).map_values(
                            |p: (String, ScalarValue)| spec_foreach_eq_term(p.0@),
                        ),
                    decreases count - i,
                {
                    let t = foreach_eq_term(&first[i].0);
                    let ghost terms0 = terms@;
                    terms.push(t);
                    proof {
                        assert(terms@.drop_last() =~= terms0);
                        assert(first@.subrange(0, i as int + 1).map_values(
                            |p: (String, ScalarValue)| spec_foreach_eq_term(p.0@),
                        ) =~= first@.subrange(0, i as int).map_values(
                            |p: (String, ScalarValue)| spec_foreach_eq_term(p.0@),
                        ).push(spec_foreach_eq_term(first@[i as int].0@)));
                        assert(ir::expressions_view(terms@) =~= first@.subrange(
                            0,
                            i as int + 1,
                        ).map_values(|p: (String, ScalarValue)| spec_foreach_eq_term(p.0@)));
                    }
                    i = i + 1;
                }
                proof {
                    assert(first@.subrange(0, count as int) =~= first@);
                }
                if terms.len() > 1 {
                    Some(ir::Expression::And { expressions: terms })
                } else {
                    let ghost terms_before = terms@;
                    let ghost mapped = first@.map_values(
                        |p: (String, ScalarValue)| spec_foreach_eq_term(p.0@),
                    );
                    match terms.pop() {
                        Some(t) => {
                            proof {
                                assert(terms_before.len() == 1);
                                assert(t == terms_before.last());
                                assert(ir::expressions_view(terms_before) == mapped);
                                assert(ir::expressions_view(terms_before)
                                    == ir::expressions_view(terms_before.drop_last()).push(
                                    ir::expression_view(t),
                                ));
                                assert(mapped.last() == mapped[0]);
                                assert(ir::expression_view(t) == mapped[0]);
                            }
                            Some(t)
                        },
                        None => None,
                    }
                }
            }
        },
    }
}

/// Translate a foreach batch into the IR's variable-binding list.
fn map_variables(foreach: &Option<Vec<Vec<(String, ScalarValue)>>>) -> (r: Option<
    Vec<Vec<(String, serde_json::Value)>>,
>)
    ensures
        match r {
            Some(vs) => spec_variables(*foreach) == Some(ir::variables_view(vs@)),
            None => spec_variables(*foreach) is None,
        },
{
    match foreach {
        None => None,
        Some(rows) => {
            let mut acc: Vec<Vec<(String, serde_json::Value)>> = Vec::new();
            let count = rows.len();
            let mut i: usize = 0;
            while i < count
                invariant
                    count == rows@.len(),
                    i <= count,
                    acc@.len() == i,
                    forall|j: int|
                        0 <= j < i ==> ir::binding_row_view(#[trigger] acc@[j]@) == rows@[j]@.map_values(
                            |p: (String, ScalarValue)| (p.0@, p.1.value),
                        ),
                decreases count - i,
            {
                let row = &rows[i];
                let mut out_row: Vec<(String, serde_json::Value)> = Vec::new();
                let row_len = row.len();
                let mut k: usize = 0;
                while k < row_len
                    invariant
                        row_len == row@.len(),
                        k <= row_len,
                        out_row@.len() == k,
                        forall|j: int|
                            0 <= j < k ==> ((#[trigger] out_row@[j]).0@, out_row@[j].1)
                                == (row@[j].0@, row@[j].1.value),
                    decreases row_len - k,
                {
                    let cell = &row[k];
                    out_row.push((cell.0.clone(), cell.1.value.clone()));
                    k = k + 1;
                }
                proof {
                    assert(ir::binding_row_view(out_row@) =~= row@.map_values(
                        |p: (String, ScalarValue)| (p.0@, p.1.value),
                    ));
                }
                acc.push(out_row);
                i = i + 1;
            }
            proof {
                assert(ir::variables_view(acc@) =~= rows@.map_values(
                    |row: Vec<(String, ScalarValue)>| row@.map_values(
                        |p: (String, ScalarValue)| (p.0@, p.1.value),
                    ),
                ));
            }
            Some(acc)
        },
    }
}

// ---------------------------------------------------------------------------
// The flat relationship registry.
// ---------------------------------------------------------------------------

/// The IR cardinality tag a legacy one translates to.
pub open spec fn spec_map_relationship_type(t: RelationshipType) -> ir::RelationshipType {
    match t {
        RelationshipType::Object => ir::RelationshipType::Object,
        RelationshipType::Array => ir::RelationshipType::Array,
    }
}

/// The flat registry entry one named relationship of a source collection
/// translates to: the flattened key, the column mapping, the cardinality
/// tag, and the resolved target.
pub open spec fn spec_relationship_entry(
    collection: Seq<char>,
    name: Seq<char>,
    rel: Relationship,
) -> Result<(Seq<char>, RelationshipV), TranslationError> {
    match spec_get_collection_and_relationship_arguments(rel.target) {
        Err(e) => Err(e),
        Ok((target_collection, arguments)) => Ok(
            (
                joined_key(collection, name),
                RelationshipV {
                    column_mapping: ir::column_mapping_view(rel.column_mapping@),
                    relationship_type: spec_map_relationship_type(rel.relationship_type),
                    target_collection,
                    arguments,
                },
            ),
        ),
    }
}

/// The flat registry entries one source table's relationships translate to,
/// or the first failure among them.
pub open spec fn spec_table_entries(
    entries: Seq<(String, Relationship)>,
    collection: Seq<char>,
) -> Result<Seq<(Seq<char>, RelationshipV)>, TranslationError>
    decreases entries,
{
    if entries.len() == 0 {
        Ok(Seq::empty())
    } else {
        match spec_table_entries(entries.drop_last(), collection) {
            Ok(vs) => match spec_relationship_entry(
                collection,
                entries.last().0@,
                entries.last().1,
            ) {
                Ok(v) => Ok(vs.push(v)),
                Err(e) => Err(e),
            },
            Err(e) => Err(e),
        }
    }
}

/// The flat registry entries one relationship grouping translates to: its
/// source table name is resolved first.
pub open spec fn spec_registry_entries_of_table(t: TableRelationships) -> Result<
    Seq<(Seq<char>, RelationshipV)>,
    TranslationError,
> {
    match spec_get_name(t.source_table@) {
        Err(e) => Err(e),
        Ok(collection) => spec_table_entries(t.relationships@, collection),
    }
}

/// The whole flat registry a request's relationship groupings translate to,
/// in grouping order, or the first failure among them.
pub open spec fn spec_registry(tables: Seq<TableRelationships>) -> Result<
    Seq<(Seq<char>, RelationshipV)>,
    TranslationError,
>
    decreases tables,
{
    if tables.len() == 0 {
        Ok(Seq::empty())
    } else {
        match spec_registry(tables.drop_last()) {
            Ok(vs) => match spec_registry_entries_of_table(tables.last()) {
                Ok(es) => Ok(vs + es),
                Err(e) => Err(e),
            },
            Err(e) => Err(e),
        }
    }
}

/// A failing prefix decides the whole grouping list's translation.
proof fn lemma_registry_prefix_err(tables: Seq<TableRelationships>, k: int)
    requires
        0 <= k <= tables.len(),
        spec_registry(tables.subrange(0, k)) is Err,
    ensures
        spec_registry(tables) == spec_registry(tables.subrange(0, k)),
    decreases tables.len(),
{
    if tables.len() == k {
        assert(tables.subrange(0, k) =~= tables);
    } else {
        assert(tables.drop_last().subrange(0, k) =~= tables.subrange(0, k));
        lemma_registry_prefix_err(tables.drop_last(), k);
    }
}

/// A failing prefix decides one grouping's translation.
proof fn lemma_table_entries_prefix_err(
    entries: Seq<(String, Relationship)>,
    collection: Seq<char>,
    k: int,
)
    requires
        0 <= k <= entries.len(),
        spec_table_entries(entries.subrange(0, k), collection) is Err,
    ensures
        spec_table_entries(entries, collection) == spec_table_entries(
            entries.subrange(0, k),
            collection,
        ),
    decreases entries.len(),
{
    if entries.len() == k {
        assert(entries.subrange(0, k) =~= entries);
    } else {
        assert(entries.drop_last().subrange(0, k) =~= entries.subrange(0, k));
        lemma_table_entries_prefix_err(entries.drop_last(), collection, k);
    }
}

/// Clone a column mapping.
fn clone_column_mapping(m: &Vec<(String, String)>) -> (r: Vec<(String, String)>)
    ensures
        ir::column_mapping_view(r@) == ir::column_mapping_view(m@),
{
    let mut acc: Vec<(String, String)> = Vec::new();
    let count = m.len();
    let mut i: usize = 0;
    while i < count
        invariant
            count == m@.len(),
            i <= count,
            acc@.len() == i,
            forall|j: int|
                0 <= j < i ==> ((#[trigger] acc@[j]).0@, acc@[j].1@) == (m@[j].0@, m@[j].1@),
        decreases count - i,
    {
        acc.push((m[i].0.clone(), m[i].1.clone()));
        i = i + 1;
    }
    proof {
        assert(ir::column_mapping_view(acc@) =~= ir::column_mapping_view(m@));
    }
    acc
}

/// Translate one named relationship of a source collection into its flat
/// registry entry.
fn map_relationship_entry(
    collection: &String,
    name: &String,
    rel: &Relationship,
) -> (r: Result<(String, ir::Relationship), TranslationError>)
    ensures
        match r {
            Ok(entry) => spec_relationship_entry(collection@, name@, *rel) == Ok::<
                _,
                TranslationError,
            >((entry.0@, ir::relationship_view(entry.1))),
            Err(err) => spec_relationship_entry(collection@, name@, *rel) == Err::<
                (Seq<char>, RelationshipV),
                _,
            >(err),
        },
{
    match get_collection_and_relationship_arguments(&rel.target) {
        Err(e) => Err(e),
        Ok((target_collection, arguments)) => {
            let key = join_key(collection, name);
            let mapped = ir::Relationship {
                column_mapping: clone_column_mapping(&rel.column_mapping),
                relationship_type: match rel.relationship_type {
                    RelationshipType::Object => ir::RelationshipType::Object,
                    RelationshipType::Array => ir::RelationshipType::Array,
                },
                target_collection,
                arguments,
            };
            proof {
                match spec_relationship_entry(collection@, name@, *rel) {
                    Ok(entry) => {
                        assert(ir::relationship_view(mapped) =~~= entry.1);
                    },
                    Err(_) => {
                        assert(false);
                    },
                }
            }
            Ok((key, mapped))
        },
    }
}

/// Translate the relationships of one grouping into flat registry entries,
/// given its resolved source collection name.
fn map_table_entries(
    entries: &Vec<(String, Relationship)>,
    collection: &String,
) -> (r: Result<Vec<(String, ir::Relationship)>, TranslationError>)
    ensures
        match r {
            Ok(es) => spec_table_entries(entries@, collection@) == Ok::<_, TranslationError>(
                ir::registry_view(es@),
            ),
            Err(err) => spec_table_entries(entries@, collection@) == Err::<
                Seq<(Seq<char>, RelationshipV)>,
                _,
            >(err),
        },
{
    let mut acc: Vec<(String, ir::Relationship)> = Vec::new();
    let count = entries.len();
    let mut i: usize = 0;
    proof {
        assert(entries@.subrange(0, 0) =~= Seq::<(String, Relationship)>::empty());
        assert(ir::registry_view(acc@) =~= Seq::<(Seq<char>, RelationshipV)>::empty());
    }
    while i < count
        invariant
            count == entries@.len(),
            i <= count,
            spec_table_entries(entries@.subrange(0, i as int), collection@) == Ok::<
                _,
                TranslationError,
            >(ir::registry_view(acc@)),
        decreases count - i,
    {
        let ghost prefix = entries@.subrange(0, i as int);
        let entry = &entries[i];
        match map_relationship_entry(collection, &entry.0, &entry.1) {
            Ok(e) => {
                let ghost acc0 = acc@;
                acc.push(e);
                proof {
                    let next = entries@.subrange(0, i as int + 1);
                    assert(next.drop_last() =~= prefix);
                    assert(next.last() == entries@[i as int]);
                    assert(ir::registry_view(acc@) =~= ir::registry_view(acc0).push(
                        (acc@.last().0@, ir::relationship_view(acc@.last().1)),
                    ));
                }
            },
            Err(err) => {
                proof {
                    let next = entries@.subrange(0, i as int + 1);
                    assert(next.drop_last() =~= prefix);
                    assert(next.last() == entries@[i as int]);
                    lemma_table_entries_prefix_err(entries@, collection@, i as int + 1);
                }
                return Err(err);
            },
        }
        i = i + 1;
    }
    proof {
        assert(entries@.subrange(0, count as int) =~= entries@);
    }
    Ok(acc)
}

/// Build the flat relationship registry of a request: every grouping's
/// relationships keyed by `"<sourceCollection>.<relationshipName>"`, in
/// grouping order.
fn map_registry(tables: &Vec<TableRelationships>) -> (r: Result<
    Vec<(String, ir::Relationship)>,
    TranslationError,
>)
    ensures
        match r {
            Ok(es) => spec_registry(tables@) == Ok::<_, TranslationError>(ir::registry_view(es@)),
            Err(err) => spec_registry(tables@) == Err::<Seq<(Seq<char>, RelationshipV)>, _>(err),
        },
{
    let mut acc: Vec<(String, ir::Relationship)> = Vec::new();
    let count = tables.len();
    let mut i: usize = 0;
    proof {
        assert(tables@.subrange(0, 0) =~= Seq::<TableRelationships>::empty());
        assert(ir::registry_view(acc@) =~= Seq::<(Seq<char>, RelationshipV)>::empty());
    }
    while i < count
        invariant
            count == tables@.len(),
            i <= count,
            spec_registry(tables@.subrange(0, i as int)) == Ok::<_, TranslationError>(
                ir::registry_view(acc@),
            ),
        decreases count - i,
    {
        let ghost prefix = tables@.subrange(0, i as int);
        let table = &tables[i];
        let table_result: Result<Vec<(String, ir::Relationship)>, TranslationError> = match get_name(
            &table.source_table,
        ) {
            Err(e) => Err(e),
            Ok(collection) => map_table_entries(&table.relationships, &collection),
        };
        match table_result {
            Ok(mut es) => {
                let ghost acc0 = acc@;
                let ghost es0 = es@;
                acc.append(&mut es);
                proof {
                    let next = tables@.subrange(0, i as int + 1);
                    assert(next.drop_last() =~= prefix);
                    assert(next.last() == tables@[i as int]);
                    assert(acc@ =~= acc0 + es0);
                    assert(ir::registry_view(acc0 + es0) =~= ir::registry_view(acc0)
                        + ir::registry_view(es0));
                }
            },
            Err(err) => {
                proof {
                    let next = tables@.subrange(0, i as int + 1);
                    assert(next.drop_last() =~= prefix);
                    assert(next.last() == tables@[i as int]);
                    lemma_registry_prefix_err(tables@, i as int + 1);
                }
                return Err(err);
            },
        }
        i = i + 1;
    }
    proof {
        assert(tables@.subrange(0, count as int) =~= tables@);
    }
    Ok(acc)
}

// ---------------------------------------------------------------------------
// Whole requests.
// ---------------------------------------------------------------------------

/// The mirror of a request result.
pub open spec fn request_result_view(r: Result<ir::QueryRequest, TranslationError>) -> Result<
    QueryRequestV,
    TranslationError,
> {
    match r {
        Ok(q) => Ok(ir::query_request_view(q)),
        Err(e) => Err(e),
    }
}

/// The IR request a whole legacy request translates to, or the first
/// failure found: the foreach batch synthesizes the variable-binding list
/// and the root predicate, the target resolves to the collection and its
/// arguments, the groupings flatten into the registry, and the query tree
/// is translated against the root collection.
pub open spec fn spec_map_query_request(request: QueryRequest) -> Result<
    QueryRequestV,
    TranslationError,
> {
    let foreach_pred = spec_foreach_expr(request.foreach);
    let variables = spec_variables(request.foreach);
    match spec_get_collection_and_arguments(request.target) {
        Err(e) => Err(e),
        Ok((collection, arguments)) => match spec_registry(request.relationships@) {
            Err(e) => Err(e),
            Ok(registry) => match spec_map_query(
                request.query,
                collection,
                request.relationships@,
                foreach_pred,
            ) {
                Err(e) => Err(e),
                Ok(qv) => Ok(
                    QueryRequestV {
                        collection,
                        arguments,
                        variables,
                        query: qv,
                        collection_relationships: registry,
                    },
                ),
            },
        },
    }
}

/// Translate a whole legacy query request into an IR request.
pub fn map_query_request(request: QueryRequest) -> (r: Result<ir::QueryRequest, TranslationError>)
    ensures
        request_result_view(r) == spec_map_query_request(request),
{
    let ghost req0 = request;
    let foreach_pred = foreach_expr(&request.foreach);
    let variables = map_variables(&request.foreach);
    let (collection, arguments) = match get_collection_and_arguments(&request.target) {
        Ok(ca) => ca,
        Err(e) => {
            return Err(e);
        },
    };
    let collection_relationships = match map_registry(&request.relationships) {
        Ok(es) => es,
        Err(e) => {
            return Err(e);
        },
    };
    let query = match map_query(&request.query, &collection, &request.relationships, foreach_pred) {
        Ok(q) => q,
        Err(e) => {
            return Err(e);
        },
    };
    let out = ir::QueryRequest {
        collection,
        arguments,
        variables,
        query,
        collection_relationships,
    };
    proof {
        match spec_map_query_request(req0) {
            Ok(qv) => {
                assert(ir::query_request_view(out) =~~= qv);
            },
            Err(_) => {
                assert(false);
            },
        }
    }
    Ok(out)
}

} // verus!
