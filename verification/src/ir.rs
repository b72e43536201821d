//! The current protocol's query intermediate representation (IR).
//!
//! As with the legacy model these are pure data.  Keyed maps are held as
//! key-value pair vectors in wire order.  Relationships live in one flat
//! registry keyed by `"<sourceCollection>.<relationshipName>"`.
//!
//! Each data type is paired with a mathematical mirror (suffix `V`) in which
//! strings are character sequences and vectors are sequences; the mirrors are
//! what contracts speak of, through the `..._view` functions.

use vstd::prelude::*;

verus! {

broadcast use vstd::seq::axiom_seq_index_decreases, vstd::std_specs::vec::axiom_vec_decreases_to_view;

/// An argument of the top-level collection: a scalar literal.
#[derive(Debug)]
pub enum Argument {
    Literal { value: serde_json::Value },
}

/// An argument of a relationship traversal: a scalar literal.  The IR keeps
/// a separate literal wrapper for relationship contexts.
#[derive(Debug)]
pub enum RelationshipArgument {
    Literal { value: serde_json::Value },
}

/// Whether a relationship reaches a single row or a row set.
#[derive(Debug)]
pub enum RelationshipType {
    Object,
    Array,
}

/// A resolved relationship of the flat registry.
#[derive(Debug)]
pub struct Relationship {
    pub column_mapping: Vec<(String, String)>,
    pub relationship_type: RelationshipType,
    pub target_collection: String,
    pub arguments: Vec<(String, RelationshipArgument)>,
}

/// The only representable unary comparison.
#[derive(Debug)]
pub enum UnaryComparisonOperator {
    IsNull,
}

/// The column a comparison applies to: a column of the current collection,
/// or a column of the root collection of the whole query.
#[derive(Debug)]
pub enum ComparisonTarget {
    Column { name: String, path: Vec<String> },
    RootCollectionColumn { name: String },
}

/// The right-hand side of a binary comparison.
#[derive(Debug)]
pub enum ComparisonValue {
    Scalar { value: serde_json::Value },
    Column { column: ComparisonTarget },
    Variable { name: String },
}

/// The collection an existence check ranges over.
#[derive(Debug)]
pub enum ExistsInCollection {
    Related { relationship: String, arguments: Vec<(String, RelationshipArgument)> },
    Unrelated { collection: String, arguments: Vec<(String, RelationshipArgument)> },
}

/// The IR boolean expression tree.
#[derive(Debug)]
#[allow(inconsistent_fields)]
pub enum Expression {
    And { expressions: Vec<Expression> },
    Or { expressions: Vec<Expression> },
    Not { expression: Box<Expression> },
    UnaryComparisonOperator { column: ComparisonTarget, operator: UnaryComparisonOperator },
    BinaryComparisonOperator { column: ComparisonTarget, operator: String, value: ComparisonValue },
    Exists { in_collection: ExistsInCollection, predicate: Option<Box<Expression>> },
}

/// An aggregate over the rows of one query node.  Result types are inferred
/// from the schema, not carried in the query.
#[derive(Debug)]
pub enum Aggregate {
    ColumnCount { column: String, distinct: bool },
    SingleColumn { column: String, function: String },
    StarCount {},
}

/// A requested output field.
#[derive(Debug)]
pub enum Field {
    Column { column: String },
    Relationship {
        query: Box<Query>,
        relationship: String,
        arguments: Vec<(String, RelationshipArgument)>,
    },
}

/// Sort direction of one ordering element.
#[derive(Debug)]
pub enum OrderDirection {
    Asc,
    Desc,
}

/// One step of an ordering path: a registry key, the relationship's
/// arguments, and an optional filter on the traversed rows.
#[derive(Debug)]
pub struct PathElement {
    pub relationship: String,
    pub arguments: Vec<(String, RelationshipArgument)>,
    pub predicate: Option<Box<Expression>>,
}

/// What an ordering element orders by, at the end of its path.
#[derive(Debug)]
pub enum OrderByTarget {
    Column { name: String, path: Vec<PathElement> },
    SingleColumnAggregate { column: String, function: String, path: Vec<PathElement> },
    StarCountAggregate { path: Vec<PathElement> },
}

/// One ordering element.
#[derive(Debug)]
pub struct OrderByElement {
    pub order_direction: OrderDirection,
    pub target: OrderByTarget,
}

/// The ordering specification of one query node.
#[derive(Debug)]
pub struct OrderBy {
    pub elements: Vec<OrderByElement>,
}

/// One IR query node.  The IR has a single limit.
#[derive(Debug)]
pub struct Query {
    pub aggregates: Option<Vec<(String, Aggregate)>>,
    pub fields: Option<Vec<(String, Field)>>,
    pub limit: Option<u32>,
    pub offset: Option<u32>,
    pub order_by: Option<OrderBy>,
    pub predicate: Option<Expression>,
}

/// A whole IR query request.
#[derive(Debug)]
pub struct QueryRequest {
    pub collection: String,
    pub arguments: Vec<(String, Argument)>,
    pub variables: Option<Vec<Vec<(String, serde_json::Value)>>>,
    pub query: Query,
    pub collection_relationships: Vec<(String, Relationship)>,
}

/// An IR type expression, as the schema describes collection fields.
#[derive(Debug)]
pub enum Type {
    Named { name: String },
    Nullable { underlying_type: Box<Type> },
    Array { element_type: Box<Type> },
    Predicate { object_type_name: String },
}

/// One field of an IR object type.
#[derive(Debug)]
pub struct ObjectField {
    pub description: Option<String>,
    pub field_type: Type,
}

/// An IR object type: named fields with types.
#[derive(Debug)]
pub struct ObjectType {
    pub description: Option<String>,
    pub fields: Vec<(String, ObjectField)>,
}

/// One queryable collection of the IR schema.
#[derive(Debug)]
pub struct CollectionInfo {
    pub name: String,
    pub description: Option<String>,
    pub collection_type: String,
}

/// The definition of one aggregate function of a scalar type.
#[derive(Debug)]
pub struct AggregateFunctionDefinition {
    pub result_type: Type,
}

/// The definition of one comparison operator of a scalar type.
#[derive(Debug)]
pub enum ComparisonOperatorDefinition {
    Equal,
    In,
    Custom { argument_type: Type },
}

/// One scalar type of the IR schema.
#[derive(Debug)]
pub struct ScalarType {
    pub aggregate_functions: Vec<(String, AggregateFunctionDefinition)>,
    pub comparison_operators: Vec<(String, ComparisonOperatorDefinition)>,
}

/// The IR schema: collections, object types and scalar types.
#[derive(Debug)]
pub struct SchemaResponse {
    pub collections: Vec<CollectionInfo>,
    pub object_types: Vec<(String, ObjectType)>,
    pub scalar_types: Vec<(String, ScalarType)>,
}

/// A capability that is either present or absent.
#[derive(Debug)]
pub struct LeafCapability {}

/// The relationship capabilities of a connector.
#[derive(Debug)]
pub struct RelationshipCapabilities {
    pub relation_comparisons: Option<LeafCapability>,
    pub order_by_aggregate: Option<LeafCapability>,
}

/// The capabilities of a connector, as far as the legacy projection reads
/// them.
#[derive(Debug)]
pub struct Capabilities {
    pub relationships: Option<RelationshipCapabilities>,
}

/// One cell of an IR response row.
#[derive(Debug)]
pub struct RowFieldValue(pub serde_json::Value);

/// One IR result unit: optional aggregate values and optional rows.
#[derive(Debug)]
pub struct RowSet {
    pub aggregates: Option<Vec<(String, serde_json::Value)>>,
    pub rows: Option<Vec<Vec<(String, RowFieldValue)>>>,
}

/// An IR query response: one row set per logical invocation.
#[derive(Debug)]
pub struct QueryResponse(pub Vec<RowSet>);

// ---------------------------------------------------------------------------
// Mathematical mirrors.
// ---------------------------------------------------------------------------

/// Mirror of [`Relationship`].
#[verifier::ext_equal]
pub ghost struct RelationshipV {
    pub column_mapping: Seq<(Seq<char>, Seq<char>)>,
    pub relationship_type: RelationshipType,
    pub target_collection: Seq<char>,
    pub arguments: Seq<(Seq<char>, RelationshipArgument)>,
}

/// Mirror of [`ComparisonTarget`].
#[verifier::ext_equal]
pub ghost enum ComparisonTargetV {
    Column { name: Seq<char>, path: Seq<Seq<char>> },
    RootCollectionColumn { name: Seq<char> },
}

/// Mirror of [`ComparisonValue`].
#[verifier::ext_equal]
pub ghost enum ComparisonValueV {
    Scalar { value: serde_json::Value },
    Column { column: ComparisonTargetV },
    Variable { name: Seq<char> },
}

/// Mirror of [`ExistsInCollection`].
#[verifier::ext_equal]
pub ghost enum ExistsInCollectionV {
    Related { relationship: Seq<char>, arguments: Seq<(Seq<char>, RelationshipArgument)> },
    Unrelated { collection: Seq<char>, arguments: Seq<(Seq<char>, RelationshipArgument)> },
}

/// Mirror of [`Expression`].
#[verifier::ext_equal]
#[allow(inconsistent_fields)]
pub ghost enum ExpressionV {
    And { expressions: Seq<ExpressionV> },
    Or { expressions: Seq<ExpressionV> },
    Not { expression: Box<ExpressionV> },
    UnaryComparisonOperator { column: ComparisonTargetV, operator: UnaryComparisonOperator },
    BinaryComparisonOperator { column: ComparisonTargetV, operator: Seq<char>, value: ComparisonValueV },
    Exists { in_collection: ExistsInCollectionV, predicate: Option<Box<ExpressionV>> },
}

/// Mirror of [`Aggregate`].
#[verifier::ext_equal]
pub ghost enum AggregateV {
    ColumnCount { column: Seq<char>, distinct: bool },
    SingleColumn { column: Seq<char>, function: Seq<char> },
    StarCount {},
}

/// Mirror of [`Field`].
#[verifier::ext_equal]
pub ghost enum FieldV {
    Column { column: Seq<char> },
    Relationship {
        query: Box<QueryV>,
        relationship: Seq<char>,
        arguments: Seq<(Seq<char>, RelationshipArgument)>,
    },
}

/// Mirror of [`PathElement`].
#[verifier::ext_equal]
pub ghost struct PathElementV {
    pub relationship: Seq<char>,
    pub arguments: Seq<(Seq<char>, RelationshipArgument)>,
    pub predicate: Option<Box<ExpressionV>>,
}

/// Mirror of [`OrderByTarget`].
#[verifier::ext_equal]
pub ghost enum OrderByTargetV {
    Column { name: Seq<char>, path: Seq<PathElementV> },
    SingleColumnAggregate { column: Seq<char>, function: Seq<char>, path: Seq<PathElementV> },
    StarCountAggregate { path: Seq<PathElementV> },
}

/// Mirror of [`OrderByElement`].
#[verifier::ext_equal]
pub ghost struct OrderByElementV {
    pub order_direction: OrderDirection,
    pub target: OrderByTargetV,
}

/// Mirror of [`OrderBy`].
#[verifier::ext_equal]
pub ghost struct OrderByV {
    pub elements: Seq<OrderByElementV>,
}

/// Mirror of [`Query`].
#[verifier::ext_equal]
pub ghost struct QueryV {
    pub aggregates: Option<Seq<(Seq<char>, AggregateV)>>,
    pub fields: Option<Seq<(Seq<char>, FieldV)>>,
    pub limit: Option<u32>,
    pub offset: Option<u32>,
    pub order_by: Option<OrderByV>,
    pub predicate: Option<ExpressionV>,
}

/// Mirror of [`QueryRequest`].
#[verifier::ext_equal]
pub ghost struct QueryRequestV {
    pub collection: Seq<char>,
    pub arguments: Seq<(Seq<char>, Argument)>,
    pub variables: Option<Seq<Seq<(Seq<char>, serde_json::Value)>>>,
    pub query: QueryV,
    pub collection_relationships: Seq<(Seq<char>, RelationshipV)>,
}

// ---------------------------------------------------------------------------
// View functions: the mirror of an executable IR value.
// ---------------------------------------------------------------------------

/// The mirror of a named-argument vector.
pub open spec fn rel_arguments_view(args: Seq<(String, RelationshipArgument)>) -> Seq<
    (Seq<char>, RelationshipArgument),
> {
    args.map_values(|p: (String, RelationshipArgument)| (p.0@, p.1))
}

/// The mirror of a column-mapping vector.
pub open spec fn column_mapping_view(m: Seq<(String, String)>) -> Seq<(Seq<char>, Seq<char>)> {
    m.map_values(|p: (String, String)| (p.0@, p.1@))
}

/// The mirror of a relationship.
pub open spec fn relationship_view(r: Relationship) -> RelationshipV {
    RelationshipV {
        column_mapping: column_mapping_view(r.column_mapping@),
        relationship_type: r.relationship_type,
        target_collection: r.target_collection@,
        arguments: rel_arguments_view(r.arguments@),
    }
}

/// The mirror of a comparison target.
pub open spec fn comparison_target_view(t: ComparisonTarget) -> ComparisonTargetV {
    match t {
        ComparisonTarget::Column { name, path } => ComparisonTargetV::Column {
            name: name@,
            path: path@.map_values(|s: String| s@),
        },
        ComparisonTarget::RootCollectionColumn { name } => ComparisonTargetV::RootCollectionColumn {
            name: name@,
        },
    }
}

/// The mirror of a comparison value.
pub open spec fn comparison_value_view(v: ComparisonValue) -> ComparisonValueV {
    match v {
        ComparisonValue::Scalar { value } => ComparisonValueV::Scalar { value },
        ComparisonValue::Column { column } => ComparisonValueV::Column {
            column: comparison_target_view(column),
        },
        ComparisonValue::Variable { name } => ComparisonValueV::Variable { name: name@ },
    }
}

/// The mirror of an existence-check collection.
pub open spec fn exists_in_collection_view(c: ExistsInCollection) -> ExistsInCollectionV {
    match c {
        ExistsInCollection::Related { relationship, arguments } => ExistsInCollectionV::Related {
            relationship: relationship@,
            arguments: rel_arguments_view(arguments@),
        },
        ExistsInCollection::Unrelated { collection, arguments } => ExistsInCollectionV::Unrelated {
            collection: collection@,
            arguments: rel_arguments_view(arguments@),
        },
    }
}

/// The mirror of an expression.
pub open spec fn expression_view(e: Expression) -> ExpressionV
    decreases e,
{
    match e {
        Expression::And { expressions } => ExpressionV::And {
            expressions: expressions_view(expressions@),
        },
        Expression::Or { expressions } => ExpressionV::Or {
            expressions: expressions_view(expressions@),
        },
        Expression::Not { expression } => ExpressionV::Not {
            expression: Box::new(expression_view(*expression)),
        },
        Expression::UnaryComparisonOperator { column, operator } => ExpressionV::UnaryComparisonOperator {
            column: comparison_target_view(column),
            operator,
        },
        Expression::BinaryComparisonOperator { column, operator, value } => ExpressionV::BinaryComparisonOperator {
            column: comparison_target_view(column),
            operator: operator@,
            value: comparison_value_view(value),
        },
        Expression::Exists { in_collection, predicate } => ExpressionV::Exists {
            in_collection: exists_in_collection_view(in_collection),
            predicate: match predicate {
                Some(p) => Some(Box::new(expression_view(*p))),
                None => None,
            },
        },
    }
}

/// The mirror of an expression sequence.
pub open spec fn expressions_view(s: Seq<Expression>) -> Seq<ExpressionV>
    decreases s,
{
    if s.len() == 0 {
        Seq::empty()
    } else {
        expressions_view(s.drop_last()).push(expression_view(s.last()))
    }
}

/// The mirror of an aggregate.
pub open spec fn aggregate_view(a: Aggregate) -> AggregateV {
    match a {
        Aggregate::ColumnCount { column, distinct } => AggregateV::ColumnCount {
            column: column@,
            distinct,
        },
        Aggregate::SingleColumn { column, function } => AggregateV::SingleColumn {
            column: column@,
            function: function@,
        },
        Aggregate::StarCount {} => AggregateV::StarCount {},
    }
}

/// The mirror of a named-aggregate vector.
pub open spec fn aggregates_view(s: Seq<(String, Aggregate)>) -> Seq<(Seq<char>, AggregateV)> {
    s.map_values(|p: (String, Aggregate)| (p.0@, aggregate_view(p.1)))
}

/// The mirror of a field.
pub open spec fn field_view(f: Field) -> FieldV
    decreases f,
{
    match f {
        Field::Column { column } => FieldV::Column { column: column@ },
        Field::Relationship { query, relationship, arguments } => FieldV::Relationship {
            query: Box::new(query_view(*query)),
            relationship: relationship@,
            arguments: rel_arguments_view(arguments@),
        },
    }
}

/// The mirror of a named-field vector.
pub open spec fn fields_view(s: Seq<(String, Field)>) -> Seq<(Seq<char>, FieldV)>
    decreases s,
{
    if s.len() == 0 {
        Seq::empty()
    } else {
        fields_view(s.drop_last()).push((s.last().0@, field_view(s.last().1)))
    }
}

/// The mirror of a path element.
pub open spec fn path_element_view(p: PathElement) -> PathElementV {
    PathElementV {
        relationship: p.relationship@,
        arguments: rel_arguments_view(p.arguments@),
        predicate: match p.predicate {
            Some(e) => Some(Box::new(expression_view(*e))),
            None => None,
        },
    }
}

/// The mirror of an ordering path.
pub open spec fn path_view(s: Seq<PathElement>) -> Seq<PathElementV> {
    s.map_values(|p: PathElement| path_element_view(p))
}

/// The mirror of an ordering target.
pub open spec fn order_by_target_view(t: OrderByTarget) -> OrderByTargetV {
    match t {
        OrderByTarget::Column { name, path } => OrderByTargetV::Column {
            name: name@,
            path: path_view(path@),
        },
        OrderByTarget::SingleColumnAggregate { column, function, path } => OrderByTargetV::SingleColumnAggregate {
            column: column@,
            function: function@,
            path: path_view(path@),
        },
        OrderByTarget::StarCountAggregate { path } => OrderByTargetV::StarCountAggregate {
            path: path_view(path@),
        },
    }
}

/// The mirror of an ordering element.
pub open spec fn order_by_element_view(e: OrderByElement) -> OrderByElementV {
    OrderByElementV { order_direction: e.order_direction, target: order_by_target_view(e.target) }
}

/// The mirror of an ordering specification.
pub open spec fn order_by_view(o: OrderBy) -> OrderByV {
    OrderByV { elements: o.elements@.map_values(|e: OrderByElement| order_by_element_view(e)) }
}

/// The mirror of a query node.
pub open spec fn query_view(q: Query) -> QueryV
    decreases q,
{
    QueryV {
        aggregates: match q.aggregates {
            Some(a) => Some(aggregates_view(a@)),
            None => None,
        },
        fields: match q.fields {
            Some(f) => Some(fields_view(f@)),
            None => None,
        },
        limit: q.limit,
        offset: q.offset,
        order_by: match q.order_by {
            Some(o) => Some(order_by_view(o)),
            None => None,
        },
        predicate: match q.predicate {
            Some(p) => Some(expression_view(p)),
            None => None,
        },
    }
}

/// The mirror of a variable-binding row.
pub open spec fn binding_row_view(row: Seq<(String, serde_json::Value)>) -> Seq<
    (Seq<char>, serde_json::Value),
> {
    row.map_values(|p: (String, serde_json::Value)| (p.0@, p.1))
}

/// The mirror of a registry vector.
pub open spec fn registry_view(s: Seq<(String, Relationship)>) -> Seq<(Seq<char>, RelationshipV)> {
    s.map_values(|p: (String, Relationship)| (p.0@, relationship_view(p.1)))
}

/// The mirror of a top-level named-argument vector.
pub open spec fn arguments_view(args: Seq<(String, Argument)>) -> Seq<(Seq<char>, Argument)> {
    args.map_values(|p: (String, Argument)| (p.0@, p.1))
}

/// The mirror of a variable-binding list.
pub open spec fn variables_view(vs: Seq<Vec<(String, serde_json::Value)>>) -> Seq<
    Seq<(Seq<char>, serde_json::Value)>,
> {
    vs.map_values(|row: Vec<(String, serde_json::Value)>| binding_row_view(row@))
}

/// The mirror of a whole query request.
pub open spec fn query_request_view(r: QueryRequest) -> QueryRequestV {
    QueryRequestV {
        collection: r.collection@,
        arguments: arguments_view(r.arguments@),
        variables: match r.variables {
            Some(vs) => Some(variables_view(vs@)),
            None => None,
        },
        query: query_view(r.query),
        collection_relationships: registry_view(r.collection_relationships@),
    }
}

} // verus!
