//! The legacy wire format's query, relationship and response vocabulary.
//!
//! These are pure data: tagged unions with compiler-enforced exhaustive
//! matching, so that every translation site must handle every variant.
//! Order-significant keyed maps of the wire format are held as key-value
//! pair vectors, which keep the wire order.

use vstd::prelude::*;

verus! {

/// A value supplied for a function-call target argument or a foreach
/// binding: a scalar literal together with its legacy type annotation.
#[derive(Debug)]
pub struct ScalarValue {
    pub value: serde_json::Value,
    pub value_type: String,
}

/// A named argument of a function-call target.
#[derive(Debug)]
pub enum FunctionRequestArgument {
    Named { name: String, value: ScalarValue },
}

/// The queried collection: a plain table, an interpolated (parameterized)
/// query, or a function call with named arguments.  A table or function name
/// is a sequence of name segments; only single-segment names are valid.
#[derive(Debug)]
pub enum Target {
    Table { name: Vec<String> },
    Interpolated { id: String },
    Function { name: Vec<String>, arguments: Vec<FunctionRequestArgument> },
}

/// Whether a relationship reaches a single row or a row set.
#[derive(Debug)]
pub enum RelationshipType {
    Object,
    Array,
}

/// One named relationship out of a source table: a source-to-target column
/// mapping, a cardinality tag, and the target it reaches.
#[derive(Debug)]
pub struct Relationship {
    pub column_mapping: Vec<(String, String)>,
    pub relationship_type: RelationshipType,
    pub target: Target,
}

/// The relationships declared for one source table, keyed by relationship
/// name.
#[derive(Debug)]
pub struct TableRelationships {
    pub source_table: Vec<String>,
    pub relationships: Vec<(String, Relationship)>,
}

/// A column selector: either a single name or a compound (multi-segment)
/// selector.  Compound selectors are not translatable.
#[derive(Debug)]
pub enum ColumnSelector {
    Compound(Vec<String>),
    Name(String),
}

/// The column a comparison applies to, with an optional path of relationship
/// traversals.  Only the empty path and the single segment `"$"` (the root
/// collection of the whole query) are translatable.
#[derive(Debug)]
pub struct ComparisonColumn {
    pub column_type: String,
    pub name: ColumnSelector,
    pub path: Option<Vec<String>>,
}

/// A unary comparison operator name.
#[derive(Debug)]
pub enum UnaryComparisonOperator {
    IsNull,
    Other(String),
}

/// A binary comparison operator name: the fixed relational set, or a custom
/// operator passed through verbatim.
#[derive(Debug)]
pub enum BinaryComparisonOperator {
    LessThan,
    LessThanOrEqual,
    Equal,
    GreaterThan,
    GreaterThanOrEqual,
    Other(String),
}

/// A binary comparison operator over an array right-hand side; only `In` is
/// translatable.
#[derive(Debug)]
pub enum BinaryArrayComparisonOperator {
    In,
    Other(String),
}

/// The right-hand side of a binary comparison: a scalar literal or another
/// comparison column.
#[derive(Debug)]
pub enum ComparisonValue {
    Scalar { value: serde_json::Value, value_type: String },
    Column { column: ComparisonColumn },
}

/// The collection an existence check ranges over: an unrelated named table,
/// or a named relationship of the current collection.
#[derive(Debug)]
pub enum ExistsInTable {
    Unrelated { table: Vec<String> },
    Related { relationship: String },
}

/// The legacy boolean expression tree.
#[derive(Debug)]
#[allow(inconsistent_fields)]
pub enum Expression {
    And { expressions: Vec<Expression> },
    Or { expressions: Vec<Expression> },
    Not { expression: Box<Expression> },
    ApplyUnaryComparison { column: ComparisonColumn, operator: UnaryComparisonOperator },
    ApplyBinaryComparison {
        column: ComparisonColumn,
        operator: BinaryComparisonOperator,
        value: ComparisonValue,
    },
    ApplyBinaryArrayComparison {
        column: ComparisonColumn,
        operator: BinaryArrayComparisonOperator,
        value_type: String,
        values: Vec<serde_json::Value>,
    },
    Exists { in_table: ExistsInTable, where_clause: Box<Expression> },
}

/// An aggregate over the rows of one query node.
#[derive(Debug)]
pub enum Aggregate {
    ColumnCount { column: String, distinct: bool },
    SingleColumn { column: String, function: String, result_type: String },
    StarCount {},
}

/// A requested output field: a plain column, a relationship-valued field
/// carrying a nested query, or a structured field (not translatable).
#[derive(Debug)]
pub enum Field {
    Column { column: String, column_type: String },
    Relationship { query: Query, relationship: String },
    Object { column: String, query: Query },
    Array { field: Box<Field>, limit: Option<i64>, offset: Option<i64>, where_clause: Option<Expression> },
}

/// Sort direction of one ordering element.
#[derive(Debug)]
pub enum OrderDirection {
    Asc,
    Desc,
}

/// What an ordering element orders by, once its relationship path has been
/// walked: a row count, a single-column aggregate, or a plain column.
#[derive(Debug)]
#[allow(inconsistent_fields)]
pub enum OrderByTarget {
    StarCountAggregate {},
    SingleColumnAggregate { column: String, function: String, result_type: String },
    Column { column: ColumnSelector },
}

/// One ordering element: a direction, a target, and the relationship path
/// leading to the collection the target lives on.
#[derive(Debug)]
pub struct OrderByElement {
    pub order_direction: OrderDirection,
    pub target: OrderByTarget,
    pub target_path: Vec<String>,
}

/// Per-segment ordering metadata: an optional filter on the traversed
/// relationship's rows, and the metadata of deeper segments.
#[derive(Debug)]
pub struct OrderByRelation {
    pub where_clause: Option<Expression>,
    pub subrelations: Vec<(String, OrderByRelation)>,
}

/// The ordering specification of one query node: the ordering elements and
/// the relation-filter tree their paths walk through.
#[derive(Debug)]
pub struct OrderBy {
    pub elements: Vec<OrderByElement>,
    pub relations: Vec<(String, OrderByRelation)>,
}

/// One legacy query node.  `limit` applies when plain field rows are
/// requested and `aggregates_limit` when aggregate rows are; the two must be
/// reconciled into the IR's single limit at translation time.
#[derive(Debug)]
pub struct Query {
    pub aggregates: Option<Vec<(String, Aggregate)>>,
    pub aggregates_limit: Option<i64>,
    pub fields: Option<Vec<(String, Field)>>,
    pub limit: Option<i64>,
    pub offset: Option<i64>,
    pub order_by: Option<OrderBy>,
    pub where_clause: Option<Expression>,
}

/// A whole legacy query request: the target, the per-source-table
/// relationship groupings, the query tree, and the optional foreach batch of
/// variable-binding rows.
#[derive(Debug)]
pub struct QueryRequest {
    pub target: Target,
    pub relationships: Vec<TableRelationships>,
    pub query: Query,
    pub foreach: Option<Vec<Vec<(String, ScalarValue)>>>,
}

/// The legacy description of a column's type: a scalar, a named object
/// type, or an array of a further type.
#[derive(Debug)]
pub enum ColumnType {
    Scalar(String),
    Object { name: String },
    Array { element_type: Box<ColumnType>, nullable: bool },
}

/// One column of a legacy table or object type.
#[derive(Debug)]
pub struct ColumnInfo {
    pub name: String,
    pub column_type: ColumnType,
    pub nullable: bool,
    pub description: Option<String>,
}

/// One table of the legacy schema.
#[derive(Debug)]
pub struct TableInfo {
    pub name: Vec<String>,
    pub description: Option<String>,
    pub table_type: Option<String>,
    pub columns: Option<Vec<ColumnInfo>>,
}

/// One named object type of the legacy schema.
#[derive(Debug)]
pub struct ObjectTypeDefinition {
    pub name: String,
    pub description: Option<String>,
    pub columns: Vec<ColumnInfo>,
}

/// One function of the legacy schema.
#[derive(Debug)]
pub struct FunctionInfo {
    pub name: Vec<String>,
    pub function_type: Option<String>,
    pub description: Option<String>,
}

/// The legacy schema response.
#[derive(Debug)]
pub struct SchemaResponse {
    pub object_types: Option<Vec<ObjectTypeDefinition>>,
    pub tables: Vec<TableInfo>,
    pub functions: Option<Vec<FunctionInfo>>,
}

/// How much of the schema a caller asks for.
#[derive(Debug)]
pub enum DetailLevel {
    Everything,
    BasicInfo,
}

/// Which tables and functions a schema request restricts itself to.
#[derive(Debug)]
pub struct SchemaFilters {
    pub only_tables: Option<Vec<Vec<String>>>,
    pub only_functions: Option<Vec<Vec<String>>>,
}

/// A legacy schema request: optional filters and an optional detail level.
#[derive(Debug)]
pub struct SchemaRequest {
    pub filters: Option<SchemaFilters>,
    pub detail_level: Option<DetailLevel>,
}

/// The legacy capabilities of one scalar type: its aggregate functions and
/// comparison operators, each mapped to a result or argument type name.
#[derive(Debug)]
pub struct ScalarTypeCapabilities {
    pub aggregate_functions: Option<Vec<(String, String)>>,
    pub comparison_operators: Option<Vec<(String, String)>>,
}

/// One cell of a legacy response row.
#[derive(Debug)]
pub enum ResponseFieldValue {
    Column(serde_json::Value),
}

/// One legacy result unit: optional aggregate values and optional rows.
#[derive(Debug)]
pub struct ResponseRow {
    pub aggregates: Option<Vec<(String, serde_json::Value)>>,
    pub rows: Option<Vec<Vec<(String, ResponseFieldValue)>>>,
}

/// One entry of a legacy foreach response.
#[derive(Debug)]
pub struct ForEachRow {
    pub query: ResponseRow,
}

/// The legacy response shape: a single result, or one entry per foreach
/// binding row.
#[derive(Debug)]
pub enum QueryResponse {
    Single(ResponseRow),
    ForEach { rows: Vec<ForEachRow> },
}

} // verus!
