//! Tests of the query translator: whole requests, expressions, limits,
//! order-by paths and the synthesized foreach predicate.

use ndc_sdk::errors::{ErrorKind, TranslationError};
use ndc_sdk::ir;
use ndc_sdk::legacy::{
    Aggregate, BinaryArrayComparisonOperator, BinaryComparisonOperator, ColumnSelector,
    ComparisonColumn, ComparisonValue, ExistsInTable, Expression, Field, OrderBy, OrderByElement,
    OrderByRelation, OrderByTarget, OrderDirection, Query, QueryRequest, Relationship,
    RelationshipType, ScalarValue, TableRelationships, Target,
};
use ndc_sdk::translate::{
    get_col_name, get_name, join_key, map_comparison_column, map_expression, map_order_by_path,
    map_query, map_query_request,
};

fn empty_query() -> Query {
    Query {
        aggregates: None,
        aggregates_limit: None,
        fields: None,
        limit: None,
        offset: None,
        order_by: None,
        where_clause: None,
    }
}

fn table_target(name: &str) -> Target {
    Target::Table { name: vec![name.to_string()] }
}

fn plain_request(query: Query) -> QueryRequest {
    QueryRequest { target: table_target("users"), relationships: vec![], query, foreach: None }
}

fn plain_column(name: &str) -> ComparisonColumn {
    ComparisonColumn {
        column_type: "string".to_string(),
        name: ColumnSelector::Name(name.to_string()),
        path: None,
    }
}

fn users_orders_relationships() -> Vec<TableRelationships> {
    vec![TableRelationships {
        source_table: vec!["users".to_string()],
        relationships: vec![(
            "orders".to_string(),
            Relationship {
                column_mapping: vec![("id".to_string(), "user_id".to_string())],
                relationship_type: RelationshipType::Array,
                target: table_target("orders"),
            },
        )],
    }]
}

#[test]
fn translates_minimal_fields_request() {
    let mut query = empty_query();
    query.fields = Some(vec![(
        "id".to_string(),
        Field::Column { column: "id".to_string(), column_type: "number".to_string() },
    )]);
    query.limit = Some(3);
    let out = map_query_request(plain_request(query)).unwrap();
    assert_eq!(out.collection, "users");
    assert!(out.arguments.is_empty());
    assert!(out.variables.is_none());
    assert!(out.collection_relationships.is_empty());
    assert_eq!(out.query.limit, Some(3));
    assert!(out.query.offset.is_none());
    assert!(out.query.aggregates.is_none());
    assert!(out.query.order_by.is_none());
    assert!(out.query.predicate.is_none());
    let fields = out.query.fields.as_ref().unwrap();
    assert_eq!(fields.len(), 1);
    assert_eq!(fields[0].0, "id");
    assert!(matches!(&fields[0].1, ir::Field::Column { column } if column == "id"));
}

#[test]
fn equal_comparison_round_trip() {
    let mut query = empty_query();
    query.where_clause = Some(Expression::ApplyBinaryComparison {
        column: plain_column("name"),
        operator: BinaryComparisonOperator::Equal,
        value: ComparisonValue::Scalar {
            value: serde_json::Value::from("alice"),
            value_type: "string".to_string(),
        },
    });
    let out = map_query_request(plain_request(query)).unwrap();
    match out.query.predicate.as_ref().unwrap() {
        ir::Expression::BinaryComparisonOperator { column, operator, value } => {
            assert_eq!(operator, "equal");
            match column {
                ir::ComparisonTarget::Column { name, path } => {
                    assert_eq!(name, "name");
                    assert!(path.is_empty());
                }
                _ => panic!("expected a plain column target"),
            }
            match value {
                ir::ComparisonValue::Scalar { value } => {
                    assert_eq!(value, &serde_json::Value::from("alice"));
                }
                _ => panic!("expected a scalar value"),
            }
        }
        _ => panic!("expected a binary comparison"),
    }
}

#[test]
fn conflicting_limits_rejected() {
    let mut query = empty_query();
    query.limit = Some(5);
    query.aggregates_limit = Some(10);
    let err = map_query_request(plain_request(query)).unwrap_err();
    assert_eq!(err, TranslationError::ConflictingLimits);
    assert_eq!(err.kind(), ErrorKind::InvalidRequest);
}

#[test]
fn conflicting_limits_rejected_with_fields_and_aggregates() {
    let mut query = empty_query();
    query.limit = Some(5);
    query.aggregates_limit = Some(10);
    query.fields = Some(vec![(
        "id".to_string(),
        Field::Column { column: "id".to_string(), column_type: "number".to_string() },
    )]);
    query.aggregates = Some(vec![("count".to_string(), Aggregate::StarCount {})]);
    let err = map_query_request(plain_request(query)).unwrap_err();
    assert_eq!(err, TranslationError::ConflictingLimits);
}

#[test]
fn aggregates_limit_with_fields_rejected() {
    let mut query = empty_query();
    query.aggregates_limit = Some(10);
    query.fields = Some(vec![(
        "id".to_string(),
        Field::Column { column: "id".to_string(), column_type: "number".to_string() },
    )]);
    let err = map_query(&query, &"users".to_string(), &vec![], None).unwrap_err();
    assert_eq!(err, TranslationError::AggregatesLimitWithFields);
}

#[test]
fn fields_limit_with_aggregates_rejected() {
    let mut query = empty_query();
    query.limit = Some(7);
    query.aggregates = Some(vec![("count".to_string(), Aggregate::StarCount {})]);
    let err = map_query(&query, &"users".to_string(), &vec![], None).unwrap_err();
    assert_eq!(err, TranslationError::FieldsLimitWithAggregates);
}

#[test]
fn aggregates_limit_applies_without_fields() {
    let mut query = empty_query();
    query.aggregates_limit = Some(10);
    query.aggregates = Some(vec![("count".to_string(), Aggregate::StarCount {})]);
    let out = map_query(&query, &"users".to_string(), &vec![], None).unwrap();
    assert_eq!(out.limit, Some(10));
}

#[test]
fn limit_out_of_range_rejected() {
    let mut query = empty_query();
    query.limit = Some(-1);
    let err = map_query(&query, &"users".to_string(), &vec![], None).unwrap_err();
    assert_eq!(err, TranslationError::LimitOutOfRange);

    let mut query = empty_query();
    query.limit = Some(4294967296);
    let err = map_query(&query, &"users".to_string(), &vec![], None).unwrap_err();
    assert_eq!(err, TranslationError::LimitOutOfRange);
}

#[test]
fn offset_out_of_range_rejected() {
    let mut query = empty_query();
    query.offset = Some(-3);
    let err = map_query(&query, &"users".to_string(), &vec![], None).unwrap_err();
    assert_eq!(err, TranslationError::OffsetOutOfRange);
}

#[test]
fn limit_and_offset_in_range_convert() {
    let mut query = empty_query();
    query.limit = Some(4294967295);
    query.offset = Some(20);
    let out = map_query(&query, &"users".to_string(), &vec![], None).unwrap();
    assert_eq!(out.limit, Some(4294967295));
    assert_eq!(out.offset, Some(20));
}

#[test]
fn comparison_path_two_segments_rejected() {
    let mut column = plain_column("id");
    column.path = Some(vec!["a".to_string(), "b".to_string()]);
    let err = map_comparison_column(&column).unwrap_err();
    assert_eq!(err, TranslationError::InvalidComparisonPath);
    assert_eq!(err.kind(), ErrorKind::InvalidRequest);
}

#[test]
fn comparison_path_empty_and_root_succeed() {
    let mut column = plain_column("id");
    column.path = Some(vec![]);
    assert!(matches!(
        map_comparison_column(&column).unwrap(),
        ir::ComparisonTarget::Column { .. }
    ));

    let mut column = plain_column("id");
    column.path = Some(vec!["$".to_string()]);
    match map_comparison_column(&column).unwrap() {
        ir::ComparisonTarget::RootCollectionColumn { name } => assert_eq!(name, "id"),
        _ => panic!("expected a root collection column"),
    }
}

#[test]
fn compound_selector_rejected() {
    let column = ComparisonColumn {
        column_type: "string".to_string(),
        name: ColumnSelector::Compound(vec!["a".to_string(), "b".to_string()]),
        path: None,
    };
    let err = map_comparison_column(&column).unwrap_err();
    assert_eq!(err, TranslationError::CompoundColumnSelector);
    let err = get_col_name(&ColumnSelector::Compound(vec!["a".to_string(), "b".to_string()]))
        .unwrap_err();
    assert_eq!(err, TranslationError::CompoundColumnSelector);
}

#[test]
fn multi_segment_target_rejected() {
    let err = get_name(&vec!["a".to_string(), "b".to_string()]).unwrap_err();
    assert_eq!(err, TranslationError::MultiSegmentTargetName);
    let err = get_name(&vec![]).unwrap_err();
    assert_eq!(err, TranslationError::MultiSegmentTargetName);

    let request = QueryRequest {
        target: Target::Table { name: vec!["a".to_string(), "b".to_string()] },
        relationships: vec![],
        query: empty_query(),
        foreach: None,
    };
    let err = map_query_request(request).unwrap_err();
    assert_eq!(err, TranslationError::MultiSegmentTargetName);
}

#[test]
fn interpolated_target_rejected() {
    let request = QueryRequest {
        target: Target::Interpolated { id: "q1".to_string() },
        relationships: vec![],
        query: empty_query(),
        foreach: None,
    };
    let err = map_query_request(request).unwrap_err();
    assert_eq!(err, TranslationError::InterpolatedTargetUnsupported);
    assert_eq!(err.kind(), ErrorKind::UnsupportedOperation);
}

#[test]
fn function_target_carries_arguments() {
    let request = QueryRequest {
        target: Target::Function {
            name: vec!["search".to_string()],
            arguments: vec![ndc_sdk::legacy::FunctionRequestArgument::Named {
                name: "term".to_string(),
                value: ScalarValue {
                    value: serde_json::Value::from("cats"),
                    value_type: "string".to_string(),
                },
            }],
        },
        relationships: vec![],
        query: empty_query(),
        foreach: None,
    };
    let out = map_query_request(request).unwrap();
    assert_eq!(out.collection, "search");
    assert_eq!(out.arguments.len(), 1);
    assert_eq!(out.arguments[0].0, "term");
    let ir::Argument::Literal { value } = &out.arguments[0].1;
    assert_eq!(value, &serde_json::Value::from("cats"));
}

#[test]
fn object_and_array_fields_rejected() {
    let mut query = empty_query();
    query.fields = Some(vec![(
        "o".to_string(),
        Field::Object { column: "o".to_string(), query: empty_query() },
    )]);
    let err = map_query(&query, &"users".to_string(), &vec![], None).unwrap_err();
    assert_eq!(err, TranslationError::ObjectFieldsUnsupported);

    let mut query = empty_query();
    query.fields = Some(vec![(
        "a".to_string(),
        Field::Array {
            field: Box::new(Field::Column {
                column: "a".to_string(),
                column_type: "string".to_string(),
            }),
            limit: None,
            offset: None,
            where_clause: None,
        },
    )]);
    let err = map_query(&query, &"users".to_string(), &vec![], None).unwrap_err();
    assert_eq!(err, TranslationError::ArrayFieldsUnsupported);
}

#[test]
fn relationship_field_translates_nested_query() {
    let mut nested = empty_query();
    nested.fields = Some(vec![(
        "total".to_string(),
        Field::Column { column: "total".to_string(), column_type: "number".to_string() },
    )]);
    let mut query = empty_query();
    query.fields = Some(vec![(
        "orders".to_string(),
        Field::Relationship { query: nested, relationship: "orders".to_string() },
    )]);
    let request = QueryRequest {
        target: table_target("users"),
        relationships: users_orders_relationships(),
        query,
        foreach: None,
    };
    let out = map_query_request(request).unwrap();
    assert_eq!(out.collection_relationships.len(), 1);
    assert_eq!(out.collection_relationships[0].0, "users.orders");
    let rel = &out.collection_relationships[0].1;
    assert_eq!(rel.target_collection, "orders");
    assert_eq!(rel.column_mapping, vec![("id".to_string(), "user_id".to_string())]);
    assert!(matches!(rel.relationship_type, ir::RelationshipType::Array));
    let fields = out.query.fields.as_ref().unwrap();
    match &fields[0].1 {
        ir::Field::Relationship { query, relationship, arguments } => {
            assert_eq!(relationship, "users.orders");
            assert!(arguments.is_empty());
            let nested_fields = query.fields.as_ref().unwrap();
            assert_eq!(nested_fields[0].0, "total");
        }
        _ => panic!("expected a relationship field"),
    }
}

#[test]
fn unknown_relationship_in_field_rejected() {
    let mut query = empty_query();
    query.fields = Some(vec![(
        "orders".to_string(),
        Field::Relationship { query: empty_query(), relationship: "payments".to_string() },
    )]);
    let request = QueryRequest {
        target: table_target("users"),
        relationships: users_orders_relationships(),
        query,
        foreach: None,
    };
    let err = map_query_request(request).unwrap_err();
    assert_eq!(err, TranslationError::RelationshipNotFound);
}

#[test]
fn unknown_table_in_relationship_lookup_rejected() {
    let mut query = empty_query();
    query.fields = Some(vec![(
        "orders".to_string(),
        Field::Relationship { query: empty_query(), relationship: "orders".to_string() },
    )]);
    let request = QueryRequest {
        target: table_target("customers"),
        relationships: users_orders_relationships(),
        query,
        foreach: None,
    };
    let err = map_query_request(request).unwrap_err();
    assert_eq!(err, TranslationError::TableNotFound);
}

#[test]
fn is_null_translates_and_unknown_unary_rejected() {
    let users = "users".to_string();
    let expr = Expression::ApplyUnaryComparison {
        column: plain_column("name"),
        operator: ndc_sdk::legacy::UnaryComparisonOperator::IsNull,
    };
    let out = map_expression(&expr, &users, &vec![]).unwrap();
    assert!(matches!(
        out,
        ir::Expression::UnaryComparisonOperator {
            operator: ir::UnaryComparisonOperator::IsNull,
            ..
        }
    ));

    let expr = Expression::ApplyUnaryComparison {
        column: plain_column("name"),
        operator: ndc_sdk::legacy::UnaryComparisonOperator::Other("is_weird".to_string()),
    };
    let err = map_expression(&expr, &users, &vec![]).unwrap_err();
    assert_eq!(err, TranslationError::UnknownUnaryOperator);
    assert_eq!(err.kind(), ErrorKind::UnsupportedOperation);
}

#[test]
fn binary_operators_map_to_canonical_names() {
    let users = "users".to_string();
    let cases = vec![
        (BinaryComparisonOperator::LessThan, "less_than"),
        (BinaryComparisonOperator::LessThanOrEqual, "less_than_or_equal"),
        (BinaryComparisonOperator::Equal, "equal"),
        (BinaryComparisonOperator::GreaterThan, "greater_than"),
        (BinaryComparisonOperator::GreaterThanOrEqual, "greater_than_or_equal"),
        (BinaryComparisonOperator::Other("like".to_string()), "like"),
    ];
    for (op, expected) in cases {
        let expr = Expression::ApplyBinaryComparison {
            column: plain_column("age"),
            operator: op,
            value: ComparisonValue::Scalar {
                value: serde_json::Value::from(1),
                value_type: "number".to_string(),
            },
        };
        match map_expression(&expr, &users, &vec![]).unwrap() {
            ir::Expression::BinaryComparisonOperator { operator, .. } => {
                assert_eq!(operator, expected);
            }
            _ => panic!("expected a binary comparison"),
        }
    }
}

#[test]
fn column_to_column_comparison_translates() {
    let users = "users".to_string();
    let expr = Expression::ApplyBinaryComparison {
        column: plain_column("a"),
        operator: BinaryComparisonOperator::Equal,
        value: ComparisonValue::Column { column: plain_column("b") },
    };
    match map_expression(&expr, &users, &vec![]).unwrap() {
        ir::Expression::BinaryComparisonOperator { value, .. } => match value {
            ir::ComparisonValue::Column { column: ir::ComparisonTarget::Column { name, .. } } => {
                assert_eq!(name, "b");
            }
            _ => panic!("expected a column value"),
        },
        _ => panic!("expected a binary comparison"),
    }
}

#[test]
fn array_comparison_serializes_values() {
    let users = "users".to_string();
    let expr = Expression::ApplyBinaryArrayComparison {
        column: plain_column("id"),
        operator: BinaryArrayComparisonOperator::In,
        value_type: "number".to_string(),
        values: vec![serde_json::Value::from(1), serde_json::Value::from(2)],
    };
    match map_expression(&expr, &users, &vec![]).unwrap() {
        ir::Expression::BinaryComparisonOperator { operator, value, .. } => {
            assert_eq!(operator, "in");
            match value {
                ir::ComparisonValue::Scalar { value } => {
                    assert_eq!(
                        value,
                        serde_json::Value::Array(vec![
                            serde_json::Value::from(1),
                            serde_json::Value::from(2),
                        ])
                    );
                }
                _ => panic!("expected a scalar value"),
            }
        }
        _ => panic!("expected a binary comparison"),
    }
}

#[test]
fn unknown_array_operator_rejected() {
    let users = "users".to_string();
    let expr = Expression::ApplyBinaryArrayComparison {
        column: plain_column("id"),
        operator: BinaryArrayComparisonOperator::Other("between".to_string()),
        value_type: "number".to_string(),
        values: vec![],
    };
    let err = map_expression(&expr, &users, &vec![]).unwrap_err();
    assert_eq!(err, TranslationError::UnknownArrayOperator);
    assert_eq!(err.kind(), ErrorKind::UnsupportedOperation);
}

#[test]
fn logical_connectives_translate_structurally() {
    let users = "users".to_string();
    let leaf = Expression::ApplyUnaryComparison {
        column: plain_column("name"),
        operator: ndc_sdk::legacy::UnaryComparisonOperator::IsNull,
    };
    let expr = Expression::Not {
        expression: Box::new(Expression::Or {
            expressions: vec![
                Expression::And { expressions: vec![] },
                leaf,
            ],
        }),
    };
    match map_expression(&expr, &users, &vec![]).unwrap() {
        ir::Expression::Not { expression } => match *expression {
            ir::Expression::Or { expressions } => {
                assert_eq!(expressions.len(), 2);
                assert!(matches!(
                    &expressions[0],
                    ir::Expression::And { expressions } if expressions.is_empty()
                ));
            }
            _ => panic!("expected a disjunction"),
        },
        _ => panic!("expected a negation"),
    }
}

#[test]
fn related_exists_flattens_key_and_scopes_predicate() {
    let users = "users".to_string();
    let expr = Expression::Exists {
        in_table: ExistsInTable::Related { relationship: "orders".to_string() },
        where_clause: Box::new(Expression::ApplyUnaryComparison {
            column: plain_column("total"),
            operator: ndc_sdk::legacy::UnaryComparisonOperator::IsNull,
        }),
    };
    match map_expression(&expr, &users, &users_orders_relationships()).unwrap() {
        ir::Expression::Exists { in_collection, predicate } => {
            match in_collection {
                ir::ExistsInCollection::Related { relationship, arguments } => {
                    assert_eq!(relationship, "users.orders");
                    assert!(arguments.is_empty());
                }
                _ => panic!("expected a related existence check"),
            }
            assert!(predicate.is_some());
        }
        _ => panic!("expected an existence check"),
    }
}

#[test]
fn unrelated_exists_uses_table_name() {
    let users = "users".to_string();
    let expr = Expression::Exists {
        in_table: ExistsInTable::Unrelated { table: vec!["audits".to_string()] },
        where_clause: Box::new(Expression::And { expressions: vec![] }),
    };
    match map_expression(&expr, &users, &vec![]).unwrap() {
        ir::Expression::Exists { in_collection, .. } => match in_collection {
            ir::ExistsInCollection::Unrelated { collection, arguments } => {
                assert_eq!(collection, "audits");
                assert!(arguments.is_empty());
            }
            _ => panic!("expected an unrelated existence check"),
        },
        _ => panic!("expected an existence check"),
    }
}

#[test]
fn aggregates_map_and_drop_result_type() {
    let mut query = empty_query();
    query.aggregates = Some(vec![
        ("n".to_string(), Aggregate::StarCount {}),
        (
            "d".to_string(),
            Aggregate::ColumnCount { column: "id".to_string(), distinct: true },
        ),
        (
            "m".to_string(),
            Aggregate::SingleColumn {
                column: "total".to_string(),
                function: "max".to_string(),
                result_type: "number".to_string(),
            },
        ),
    ]);
    let out = map_query(&query, &"users".to_string(), &vec![], None).unwrap();
    let aggregates = out.aggregates.unwrap();
    assert_eq!(aggregates.len(), 3);
    assert!(matches!(aggregates[0].1, ir::Aggregate::StarCount {}));
    assert!(matches!(
        &aggregates[1].1,
        ir::Aggregate::ColumnCount { column, distinct: true } if column == "id"
    ));
    assert!(matches!(
        &aggregates[2].1,
        ir::Aggregate::SingleColumn { column, function } if column == "total" && function == "max"
    ));
}

#[test]
fn order_by_unknown_segment_rejected() {
    let path = vec!["payments".to_string()];
    let relations: Vec<(String, OrderByRelation)> = vec![];
    let err = map_order_by_path(&path, &relations, &"users".to_string(), &vec![]).unwrap_err();
    assert_eq!(err, TranslationError::OrderByRelationNotFound);
    assert_eq!(err.kind(), ErrorKind::InvalidRequest);
}

#[test]
fn order_by_unresolved_relationship_rejected() {
    let path = vec!["orders".to_string()];
    let relations = vec![(
        "orders".to_string(),
        OrderByRelation { where_clause: None, subrelations: vec![] },
    )];
    let err = map_order_by_path(&path, &relations, &"users".to_string(), &vec![]).unwrap_err();
    assert_eq!(err, TranslationError::TableNotFound);
    assert_eq!(err.kind(), ErrorKind::InvalidRequest);
}

#[test]
fn order_by_path_walks_relationships() {
    let path = vec!["orders".to_string()];
    let relations = vec![(
        "orders".to_string(),
        OrderByRelation {
            where_clause: Some(Expression::ApplyUnaryComparison {
                column: plain_column("total"),
                operator: ndc_sdk::legacy::UnaryComparisonOperator::IsNull,
            }),
            subrelations: vec![],
        },
    )];
    let out = map_order_by_path(
        &path,
        &relations,
        &"users".to_string(),
        &users_orders_relationships(),
    )
    .unwrap();
    assert_eq!(out.len(), 1);
    assert_eq!(out[0].relationship, "users.orders");
    assert!(out[0].predicate.is_some());
}

#[test]
fn order_by_path_advances_collection_cursor() {
    let relationships = vec![
        TableRelationships {
            source_table: vec!["users".to_string()],
            relationships: vec![(
                "orders".to_string(),
                Relationship {
                    column_mapping: vec![],
                    relationship_type: RelationshipType::Array,
                    target: table_target("orders"),
                },
            )],
        },
        TableRelationships {
            source_table: vec!["orders".to_string()],
            relationships: vec![(
                "items".to_string(),
                Relationship {
                    column_mapping: vec![],
                    relationship_type: RelationshipType::Array,
                    target: table_target("items"),
                },
            )],
        },
    ];
    let path = vec!["orders".to_string(), "items".to_string()];
    let relations = vec![(
        "orders".to_string(),
        OrderByRelation {
            where_clause: None,
            subrelations: vec![(
                "items".to_string(),
                OrderByRelation { where_clause: None, subrelations: vec![] },
            )],
        },
    )];
    let out = map_order_by_path(&path, &relations, &"users".to_string(), &relationships).unwrap();
    assert_eq!(out.len(), 2);
    assert_eq!(out[0].relationship, "users.orders");
    assert_eq!(out[1].relationship, "orders.items");
}

#[test]
fn order_by_aggregate_targets_translate() {
    let mut query = empty_query();
    query.order_by = Some(OrderBy {
        elements: vec![
            OrderByElement {
                order_direction: OrderDirection::Asc,
                target: OrderByTarget::StarCountAggregate {},
                target_path: vec![],
            },
            OrderByElement {
                order_direction: OrderDirection::Desc,
                target: OrderByTarget::SingleColumnAggregate {
                    column: "total".to_string(),
                    function: "sum".to_string(),
                    result_type: "number".to_string(),
                },
                target_path: vec![],
            },
        ],
        relations: vec![],
    });
    let out = map_query(&query, &"users".to_string(), &vec![], None).unwrap();
    let order_by = out.order_by.unwrap();
    assert!(matches!(
        &order_by.elements[0].target,
        ir::OrderByTarget::StarCountAggregate { path } if path.is_empty()
    ));
    assert!(matches!(
        &order_by.elements[1].target,
        ir::OrderByTarget::SingleColumnAggregate { column, function, path }
            if column == "total" && function == "sum" && path.is_empty()
    ));
}

#[test]
fn order_by_elements_translate() {
    let mut query = empty_query();
    query.order_by = Some(OrderBy {
        elements: vec![OrderByElement {
            order_direction: OrderDirection::Desc,
            target: OrderByTarget::Column {
                column: ColumnSelector::Name("name".to_string()),
            },
            target_path: vec![],
        }],
        relations: vec![],
    });
    let out = map_query(&query, &"users".to_string(), &vec![], None).unwrap();
    let order_by = out.order_by.unwrap();
    assert_eq!(order_by.elements.len(), 1);
    assert!(matches!(order_by.elements[0].order_direction, ir::OrderDirection::Desc));
    match &order_by.elements[0].target {
        ir::OrderByTarget::Column { name, path } => {
            assert_eq!(name, "name");
            assert!(path.is_empty());
        }
        _ => panic!("expected a column ordering target"),
    }
}

#[test]
fn no_foreach_no_variables() {
    let out = map_query_request(plain_request(empty_query())).unwrap();
    assert!(out.variables.is_none());
    assert!(out.query.predicate.is_none());
}

#[test]
fn foreach_two_keys_builds_conjunction() {
    let row = |a: i64, b: i64| {
        vec![
            (
                "x".to_string(),
                ScalarValue {
                    value: serde_json::Value::from(a),
                    value_type: "number".to_string(),
                },
            ),
            (
                "y".to_string(),
                ScalarValue {
                    value: serde_json::Value::from(b),
                    value_type: "number".to_string(),
                },
            ),
        ]
    };
    let request = QueryRequest {
        target: table_target("users"),
        relationships: vec![],
        query: empty_query(),
        foreach: Some(vec![row(1, 2), row(3, 4)]),
    };
    let out = map_query_request(request).unwrap();
    let variables = out.variables.unwrap();
    assert_eq!(variables.len(), 2);
    assert_eq!(variables[0][0], ("x".to_string(), serde_json::Value::from(1)));
    assert_eq!(variables[1][1], ("y".to_string(), serde_json::Value::from(4)));
    match out.query.predicate.unwrap() {
        ir::Expression::And { expressions } => {
            assert_eq!(expressions.len(), 2);
            match &expressions[0] {
                ir::Expression::BinaryComparisonOperator { column, operator, value } => {
                    assert_eq!(operator, "equal");
                    assert!(matches!(
                        column,
                        ir::ComparisonTarget::Column { name, .. } if name == "x"
                    ));
                    assert!(matches!(
                        value,
                        ir::ComparisonValue::Variable { name } if name == "x"
                    ));
                }
                _ => panic!("expected an equality term"),
            }
        }
        _ => panic!("expected a conjunction"),
    }
}

#[test]
fn foreach_single_key_stands_alone() {
    let request = QueryRequest {
        target: table_target("users"),
        relationships: vec![],
        query: empty_query(),
        foreach: Some(vec![vec![(
            "x".to_string(),
            ScalarValue { value: serde_json::Value::from(1), value_type: "number".to_string() },
        )]]),
    };
    let out = map_query_request(request).unwrap();
    assert!(matches!(
        out.query.predicate.unwrap(),
        ir::Expression::BinaryComparisonOperator { .. }
    ));
}

#[test]
fn foreach_empty_batch_yields_empty_bindings() {
    let request = QueryRequest {
        target: table_target("users"),
        relationships: vec![],
        query: empty_query(),
        foreach: Some(vec![]),
    };
    let out = map_query_request(request).unwrap();
    assert_eq!(out.variables.unwrap().len(), 0);
    assert!(out.query.predicate.is_none());
}

#[test]
fn foreach_conjoined_with_user_filter() {
    let mut query = empty_query();
    query.where_clause = Some(Expression::ApplyUnaryComparison {
        column: plain_column("deleted_at"),
        operator: ndc_sdk::legacy::UnaryComparisonOperator::IsNull,
    });
    let request = QueryRequest {
        target: table_target("users"),
        relationships: vec![],
        query,
        foreach: Some(vec![vec![(
            "x".to_string(),
            ScalarValue { value: serde_json::Value::from(1), value_type: "number".to_string() },
        )]]),
    };
    let out = map_query_request(request).unwrap();
    match out.query.predicate.unwrap() {
        ir::Expression::And { expressions } => {
            assert_eq!(expressions.len(), 2);
            assert!(matches!(&expressions[0], ir::Expression::UnaryComparisonOperator { .. }));
            assert!(matches!(&expressions[1], ir::Expression::BinaryComparisonOperator { .. }));
        }
        _ => panic!("expected the filter conjoined with the foreach predicate"),
    }
}

#[test]
fn foreach_not_pushed_into_nested_queries() {
    let mut nested = empty_query();
    nested.fields = Some(vec![(
        "total".to_string(),
        Field::Column { column: "total".to_string(), column_type: "number".to_string() },
    )]);
    let mut query = empty_query();
    query.fields = Some(vec![(
        "orders".to_string(),
        Field::Relationship { query: nested, relationship: "orders".to_string() },
    )]);
    let request = QueryRequest {
        target: table_target("users"),
        relationships: users_orders_relationships(),
        query,
        foreach: Some(vec![vec![(
            "x".to_string(),
            ScalarValue { value: serde_json::Value::from(1), value_type: "number".to_string() },
        )]]),
    };
    let out = map_query_request(request).unwrap();
    assert!(out.query.predicate.is_some());
    match &out.query.fields.as_ref().unwrap()[0].1 {
        ir::Field::Relationship { query, .. } => assert!(query.predicate.is_none()),
        _ => panic!("expected a relationship field"),
    }
}

#[test]
fn join_key_concatenates_with_dot() {
    assert_eq!(join_key(&"users".to_string(), &"orders".to_string()), "users.orders");
}

#[test]
fn error_messages_and_kinds() {
    assert_eq!(
        TranslationError::ConflictingLimits.message(),
        "Different limits for aggregates and fields not supported"
    );
    assert_eq!(
        TranslationError::InterpolatedTargetUnsupported.message(),
        "Interpolated queries not supported"
    );
    assert_eq!(TranslationError::ObjectFieldsUnsupported.message(), "Object fields not supported");
    assert_eq!(TranslationError::ObjectFieldsUnsupported.kind(), ErrorKind::InvalidRequest);
    assert_eq!(TranslationError::LimitOutOfRange.message(), "Limit must be valid u32");
}
