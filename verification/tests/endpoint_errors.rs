//! Tests of the endpoint error mappings: each error variant's HTTP status
//! and response-level message.

use ndc_sdk::connector::{Example, ExampleConfigureArgs, ExplainError, MutationError, QueryError};

#[test]
fn query_error_statuses() {
    assert_eq!(QueryError::InvalidRequest("x".to_string()).status_code(), 400);
    assert_eq!(QueryError::UnprocessableContent("x".to_string()).status_code(), 422);
    assert_eq!(QueryError::UnsupportedOperation("x".to_string()).status_code(), 501);
    assert_eq!(QueryError::Other("x".to_string()).status_code(), 500);
}

#[test]
fn query_error_messages() {
    assert_eq!(QueryError::InvalidRequest("x".to_string()).response_message(), "Invalid request");
    assert_eq!(QueryError::Other("x".to_string()).response_message(), "Internal error");
}

#[test]
fn explain_error_statuses() {
    assert_eq!(ExplainError::InvalidRequest("x".to_string()).status_code(), 400);
    assert_eq!(ExplainError::UnprocessableContent("x".to_string()).status_code(), 422);
    assert_eq!(ExplainError::UnsupportedOperation("x".to_string()).status_code(), 501);
    assert_eq!(ExplainError::Other("x".to_string()).status_code(), 500);
    assert_eq!(
        ExplainError::UnsupportedOperation("x".to_string()).response_message(),
        "Unsupported operation"
    );
}

#[test]
fn mutation_error_statuses() {
    assert_eq!(MutationError::InvalidRequest("x".to_string()).status_code(), 400);
    assert_eq!(MutationError::UnprocessableContent("x".to_string()).status_code(), 422);
    assert_eq!(MutationError::UnsupportedOperation("x".to_string()).status_code(), 501);
    assert_eq!(MutationError::Conflict("x".to_string()).status_code(), 409);
    assert_eq!(MutationError::ConstraintNotMet("x".to_string()).status_code(), 403);
    assert_eq!(MutationError::Other("x".to_string()).status_code(), 500);
}

#[test]
fn mutation_error_messages() {
    assert_eq!(
        MutationError::Conflict("x".to_string()).response_message(),
        "Request would create a conflicting state"
    );
    assert_eq!(
        MutationError::ConstraintNotMet("x".to_string()).response_message(),
        "Constraint not met"
    );
}

#[test]
fn example_connector_configuration_succeeds() {
    assert!(Example::configure(&ExampleConfigureArgs {}).is_ok());
    assert!(Example::validate_raw_configuration(&()).is_ok());
}
