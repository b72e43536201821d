//! Tests of the response translator and the schema projection.

use ndc_sdk::ir;
use ndc_sdk::legacy::{
    ColumnType, DetailLevel, QueryResponse, ResponseFieldValue, SchemaFilters, SchemaRequest,
};
use ndc_sdk::response::{get_reponse_row, map_query_response};
use ndc_sdk::schema::{
    apply_schema_request, map_scalar_types, map_schema, supports_relations, SchemaMappingError,
};

fn row(name: &str, value: i64) -> Vec<(String, ir::RowFieldValue)> {
    vec![(name.to_string(), ir::RowFieldValue(serde_json::Value::from(value)))]
}

fn row_set(rows: Vec<Vec<(String, ir::RowFieldValue)>>) -> ir::RowSet {
    ir::RowSet { aggregates: None, rows: Some(rows) }
}

#[test]
fn single_row_set_single_response() {
    let response = ir::QueryResponse(vec![row_set(vec![row("id", 1)])]);
    match map_query_response(response) {
        QueryResponse::Single(out) => {
            let rows = out.rows.unwrap();
            assert_eq!(rows.len(), 1);
            assert_eq!(rows[0][0].0, "id");
            let ResponseFieldValue::Column(v) = &rows[0][0].1;
            assert_eq!(v, &serde_json::Value::from(1));
        }
        _ => panic!("expected the single-result shape"),
    }
}

#[test]
fn two_row_sets_foreach_response() {
    let response = ir::QueryResponse(vec![
        row_set(vec![row("id", 1)]),
        row_set(vec![row("id", 2)]),
    ]);
    match map_query_response(response) {
        QueryResponse::ForEach { rows } => {
            assert_eq!(rows.len(), 2);
            let first = rows[0].query.rows.as_ref().unwrap();
            let ResponseFieldValue::Column(v) = &first[0][0].1;
            assert_eq!(v, &serde_json::Value::from(1));
            let second = rows[1].query.rows.as_ref().unwrap();
            let ResponseFieldValue::Column(v) = &second[0][0].1;
            assert_eq!(v, &serde_json::Value::from(2));
        }
        _ => panic!("expected the foreach shape"),
    }
}

#[test]
fn zero_row_sets_foreach_response() {
    let response = ir::QueryResponse(vec![]);
    match map_query_response(response) {
        QueryResponse::ForEach { rows } => assert!(rows.is_empty()),
        _ => panic!("expected the foreach shape"),
    }
}

#[test]
fn response_row_aggregates_pass_through() {
    let out = get_reponse_row(ir::RowSet {
        aggregates: Some(vec![("count".to_string(), serde_json::Value::from(7))]),
        rows: None,
    });
    assert_eq!(
        out.aggregates,
        Some(vec![("count".to_string(), serde_json::Value::from(7))])
    );
    assert!(out.rows.is_none());
}

fn sample_schema() -> ir::SchemaResponse {
    ir::SchemaResponse {
        collections: vec![ir::CollectionInfo {
            name: "users".to_string(),
            description: Some("all users".to_string()),
            collection_type: "user".to_string(),
        }],
        object_types: vec![(
            "user".to_string(),
            ir::ObjectType {
                description: None,
                fields: vec![
                    (
                        "id".to_string(),
                        ir::ObjectField {
                            description: None,
                            field_type: ir::Type::Named { name: "Int".to_string() },
                        },
                    ),
                    (
                        "nickname".to_string(),
                        ir::ObjectField {
                            description: None,
                            field_type: ir::Type::Nullable {
                                underlying_type: Box::new(ir::Type::Named {
                                    name: "String".to_string(),
                                }),
                            },
                        },
                    ),
                    (
                        "friends".to_string(),
                        ir::ObjectField {
                            description: None,
                            field_type: ir::Type::Array {
                                element_type: Box::new(ir::Type::Named {
                                    name: "user".to_string(),
                                }),
                            },
                        },
                    ),
                ],
            },
        )],
        scalar_types: vec![],
    }
}

#[test]
fn schema_projects_tables_and_columns() {
    let out = map_schema(&sample_schema()).unwrap();
    assert_eq!(out.tables.len(), 1);
    let table = &out.tables[0];
    assert_eq!(table.name, vec!["users".to_string()]);
    assert_eq!(table.description, Some("all users".to_string()));
    let columns = table.columns.as_ref().unwrap();
    assert_eq!(columns.len(), 3);
    assert_eq!(columns[0].name, "id");
    assert!(!columns[0].nullable);
    assert!(matches!(&columns[0].column_type, ColumnType::Scalar(n) if n == "Int"));
    assert!(columns[1].nullable);
    assert!(matches!(&columns[1].column_type, ColumnType::Scalar(n) if n == "String"));
    match &columns[2].column_type {
        ColumnType::Array { element_type, nullable } => {
            assert!(!nullable);
            assert!(matches!(&**element_type, ColumnType::Object { name } if name == "user"));
        }
        _ => panic!("expected an array column type"),
    }
    let object_types = out.object_types.as_ref().unwrap();
    assert_eq!(object_types.len(), 1);
    assert_eq!(object_types[0].name, "user");
    assert!(out.functions.is_none());
}

#[test]
fn schema_missing_object_type_fails() {
    let mut schema = sample_schema();
    schema.collections[0].collection_type = "ghost".to_string();
    match map_schema(&schema) {
        Err(SchemaMappingError::ObjectTypeNotFound { collection_type, table }) => {
            assert_eq!(collection_type, "ghost");
            assert_eq!(table, "users");
        }
        _ => panic!("expected a missing object type failure"),
    }
}

#[test]
fn schema_request_filters_tables() {
    let mut schema = sample_schema();
    schema.collections.push(ir::CollectionInfo {
        name: "ghosts".to_string(),
        description: None,
        collection_type: "user".to_string(),
    });
    let projected = map_schema(&schema).unwrap();
    let request = Some(SchemaRequest {
        filters: Some(SchemaFilters {
            only_tables: Some(vec![vec!["users".to_string()]]),
            only_functions: None,
        }),
        detail_level: None,
    });
    let out = apply_schema_request(projected, &request);
    assert_eq!(out.tables.len(), 1);
    assert_eq!(out.tables[0].name, vec!["users".to_string()]);
    assert!(out.tables[0].columns.is_some());
}

#[test]
fn schema_request_basic_info_strips_columns() {
    let projected = map_schema(&sample_schema()).unwrap();
    let request = Some(SchemaRequest {
        filters: None,
        detail_level: Some(DetailLevel::BasicInfo),
    });
    let out = apply_schema_request(projected, &request);
    assert_eq!(out.tables.len(), 1);
    assert!(out.tables[0].columns.is_none());
    assert!(out.tables[0].description.is_none());
    assert_eq!(out.tables[0].name, vec!["users".to_string()]);
}

#[test]
fn schema_request_absent_changes_nothing() {
    let projected = map_schema(&sample_schema()).unwrap();
    let out = apply_schema_request(projected, &None);
    assert_eq!(out.tables.len(), 1);
    assert!(out.tables[0].columns.is_some());
}

#[test]
fn scalar_types_capabilities_mapped() {
    let scalar_types = vec![(
        "Int".to_string(),
        ir::ScalarType {
            aggregate_functions: vec![
                (
                    "sum".to_string(),
                    ir::AggregateFunctionDefinition {
                        result_type: ir::Type::Named { name: "Int".to_string() },
                    },
                ),
                (
                    "avg".to_string(),
                    ir::AggregateFunctionDefinition {
                        result_type: ir::Type::Nullable {
                            underlying_type: Box::new(ir::Type::Named {
                                name: "Float".to_string(),
                            }),
                        },
                    },
                ),
            ],
            comparison_operators: vec![
                ("eq".to_string(), ir::ComparisonOperatorDefinition::Equal),
                ("within".to_string(), ir::ComparisonOperatorDefinition::In),
                (
                    "mod".to_string(),
                    ir::ComparisonOperatorDefinition::Custom {
                        argument_type: ir::Type::Named { name: "Int".to_string() },
                    },
                ),
                (
                    "near".to_string(),
                    ir::ComparisonOperatorDefinition::Custom {
                        argument_type: ir::Type::Array {
                            element_type: Box::new(ir::Type::Named {
                                name: "Int".to_string(),
                            }),
                        },
                    },
                ),
            ],
        },
    )];
    let out = map_scalar_types(&scalar_types);
    assert_eq!(out.len(), 1);
    assert_eq!(out[0].0, "Int");
    let aggregates = out[0].1.aggregate_functions.as_ref().unwrap();
    assert_eq!(aggregates, &vec![("sum".to_string(), "Int".to_string())]);
    let operators = out[0].1.comparison_operators.as_ref().unwrap();
    assert_eq!(
        operators,
        &vec![
            ("equal".to_string(), "equal".to_string()),
            ("in".to_string(), "in".to_string()),
            ("mod".to_string(), "Int".to_string()),
        ]
    );
}

#[test]
fn supports_relations_reads_capabilities() {
    let none = ir::Capabilities { relationships: None };
    assert_eq!(supports_relations(&none), None);

    let without = ir::Capabilities {
        relationships: Some(ir::RelationshipCapabilities {
            relation_comparisons: None,
            order_by_aggregate: None,
        }),
    };
    assert_eq!(supports_relations(&without), Some(false));

    let with = ir::Capabilities {
        relationships: Some(ir::RelationshipCapabilities {
            relation_comparisons: Some(ir::LeafCapability {}),
            order_by_aggregate: None,
        }),
    };
    assert_eq!(supports_relations(&with), Some(true));
}
