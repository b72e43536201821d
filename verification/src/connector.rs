//! Error vocabulary of the connector endpoints, and a trivial example
//! connector configuration.
//!
//! The surrounding server maps these to response-level errors; here they are
//! plain data.  Dynamic causes are carried as plain message strings.

use vstd::prelude::*;

verus! {

/// A segment in a node path, used with [`InvalidNode`].
#[derive(Debug)]
pub enum KeyOrIndex {
    Key(String),
    Index(u32),
}

/// An error associated with the position of a single character in a text
/// file.
#[derive(Debug)]
pub struct LocatedError {
    pub file_path: String,
    pub line: usize,
    pub column: usize,
    pub message: String,
}

/// An error associated with a node in a graph structure.
#[derive(Debug)]
pub struct InvalidNode {
    pub file_path: String,
    pub node_path: Vec<KeyOrIndex>,
    pub message: String,
}

/// A set of invalid nodes.
#[derive(Debug)]
pub struct InvalidNodes(pub Vec<InvalidNode>);

/// Errors which occur when trying to validate connector configuration.
#[derive(Debug)]
pub enum ParseError {
    ParseError(LocatedError),
    ValidateError(InvalidNodes),
    CouldNotFindConfiguration(String),
    IoError(String),
    Other(String),
}

/// Errors which occur when generating an initial connector configuration.
#[derive(Debug)]
pub enum ConfigurationError {
    Other(String),
}

/// Errors which occur when trying to initialize connector state.
#[derive(Debug)]
pub enum InitializationError {
    Other(String),
}

/// Errors which occur when trying to update metrics.
#[derive(Debug)]
pub enum FetchMetricsError {
    Other(String),
}

/// Errors which occur when checking connector health.
#[derive(Debug)]
pub enum HealthError {
    Other(String),
}

/// Errors which occur when retrieving the connector schema.
#[derive(Debug)]
pub enum SchemaError {
    Other(String),
}

/// Errors which occur when executing a query.
#[derive(Debug)]
pub enum QueryError {
    /// The request was invalid or did not match the requirements of the
    /// specification.  This indicates an error with the client.
    InvalidRequest(String),
    /// The request was well formed but was unable to be followed due to
    /// semantic errors.  This indicates an error with the client.
    UnprocessableContent(String),
    /// The request relies on an unsupported feature or capability.
    UnsupportedOperation(String),
    Other(String),
}

/// Errors which occur when explaining a query.
#[derive(Debug)]
pub enum ExplainError {
    InvalidRequest(String),
    UnprocessableContent(String),
    UnsupportedOperation(String),
    Other(String),
}

/// Errors which occur when executing a mutation.
#[derive(Debug)]
pub enum MutationError {
    InvalidRequest(String),
    UnprocessableContent(String),
    UnsupportedOperation(String),
    /// The request would result in a conflicting state in the underlying
    /// data store.
    Conflict(String),
    /// The request would violate a constraint in the underlying data store.
    ConstraintNotMet(String),
    Other(String),
}

impl QueryError {
    /// The HTTP status the query endpoint answers with for this error.
    pub open spec fn status_code_spec(self) -> u16 {
        match self {
            QueryError::InvalidRequest(_) => 400,
            QueryError::UnprocessableContent(_) => 422,
            QueryError::UnsupportedOperation(_) => 501,
            QueryError::Other(_) => 500,
        }
    }

    /// The HTTP status the query endpoint answers with for this error.
    pub fn status_code(&self) -> (s: u16)
        ensures
            s == self.status_code_spec(),
    {
        match self {
            QueryError::InvalidRequest(_) => 400,
            QueryError::UnprocessableContent(_) => 422,
            QueryError::UnsupportedOperation(_) => 501,
            QueryError::Other(_) => 500,
        }
    }

    /// The response-level message for this error; the dynamic cause travels
    /// in the response details, not here.
    pub fn response_message(&self) -> (m: &'static str)
        ensures
            m@ == self.response_message_spec(),
    {
        match self {
            QueryError::InvalidRequest(_) => "Invalid request",
            QueryError::UnprocessableContent(_) => "Unprocessable content",
            QueryError::UnsupportedOperation(_) => "Unsupported operation",
            QueryError::Other(_) => "Internal error",
        }
    }

    /// The response-level message for this error.
    pub open spec fn response_message_spec(self) -> Seq<char> {
        match self {
            QueryError::InvalidRequest(_) => "Invalid request"@,
            QueryError::UnprocessableContent(_) => "Unprocessable content"@,
            QueryError::UnsupportedOperation(_) => "Unsupported operation"@,
            QueryError::Other(_) => "Internal error"@,
        }
    }
}

impl ExplainError {
    /// The HTTP status the explain endpoints answer with for this error.
    pub open spec fn status_code_spec(self) -> u16 {
        match self {
            ExplainError::InvalidRequest(_) => 400,
            ExplainError::UnprocessableContent(_) => 422,
            ExplainError::UnsupportedOperation(_) => 501,
            ExplainError::Other(_) => 500,
        }
    }

    /// The HTTP status the explain endpoints answer with for this error.
    pub fn status_code(&self) -> (s: u16)
        ensures
            s == self.status_code_spec(),
    {
        match self {
            ExplainError::InvalidRequest(_) => 400,
            ExplainError::UnprocessableContent(_) => 422,
            ExplainError::UnsupportedOperation(_) => 501,
            ExplainError::Other(_) => 500,
        }
    }

    /// The response-level message for this error.
    pub fn response_message(&self) -> (m: &'static str)
        ensures
            m@ == self.response_message_spec(),
    {
        match self {
            ExplainError::InvalidRequest(_) => "Invalid request",
            ExplainError::UnprocessableContent(_) => "Unprocessable content",
            ExplainError::UnsupportedOperation(_) => "Unsupported operation",
            ExplainError::Other(_) => "Internal error",
        }
    }

    /// The response-level message for this error.
    pub open spec fn response_message_spec(self) -> Seq<char> {
        match self {
            ExplainError::InvalidRequest(_) => "Invalid request"@,
            ExplainError::UnprocessableContent(_) => "Unprocessable content"@,
            ExplainError::UnsupportedOperation(_) => "Unsupported operation"@,
            ExplainError::Other(_) => "Internal error"@,
        }
    }
}

impl MutationError {
    /// The HTTP status the mutation endpoint answers with for this error:
    /// conflicting mutations and unmet constraints get statuses of their
    /// own.
    pub open spec fn status_code_spec(self) -> u16 {
        match self {
            MutationError::InvalidRequest(_) => 400,
            MutationError::UnprocessableContent(_) => 422,
            MutationError::UnsupportedOperation(_) => 501,
            MutationError::Conflict(_) => 409,
            MutationError::ConstraintNotMet(_) => 403,
            MutationError::Other(_) => 500,
        }
    }

    /// The HTTP status the mutation endpoint answers with for this error.
    pub fn status_code(&self) -> (s: u16)
        ensures
            s == self.status_code_spec(),
    {
        match self {
            MutationError::InvalidRequest(_) => 400,
            MutationError::UnprocessableContent(_) => 422,
            MutationError::UnsupportedOperation(_) => 501,
            MutationError::Conflict(_) => 409,
            MutationError::ConstraintNotMet(_) => 403,
            MutationError::Other(_) => 500,
        }
    }

    /// The response-level message for this error.
    pub fn response_message(&self) -> (m: &'static str)
        ensures
            m@ == self.response_message_spec(),
    {
        match self {
            MutationError::InvalidRequest(_) => "Invalid request",
            MutationError::UnprocessableContent(_) => "Unprocessable content",
            MutationError::UnsupportedOperation(_) => "Unsupported operation",
            MutationError::Conflict(_) => "Request would create a conflicting state",
            MutationError::ConstraintNotMet(_) => "Constraint not met",
            MutationError::Other(_) => "Internal error",
        }
    }

    /// The response-level message for this error.
    pub open spec fn response_message_spec(self) -> Seq<char> {
        match self {
            MutationError::InvalidRequest(_) => "Invalid request"@,
            MutationError::UnprocessableContent(_) => "Unprocessable content"@,
            MutationError::UnsupportedOperation(_) => "Unsupported operation"@,
            MutationError::Conflict(_) => "Request would create a conflicting state"@,
            MutationError::ConstraintNotMet(_) => "Constraint not met"@,
            MutationError::Other(_) => "Internal error"@,
        }
    }
}

/// The per-source configuration of the legacy compatibility endpoints: at
/// most a service token secret.
#[derive(Debug)]
pub struct SourceConfig {
    pub service_token_secret: Option<String>,
}

/// A connector over no data at all: the example configuration is empty.
#[derive(Debug)]
pub struct Example {}

/// Command-line arguments of the example connector's configuration step:
/// there are none.
#[derive(Debug)]
pub struct ExampleConfigureArgs {}

impl Example {
    /// Generating the example configuration always succeeds and carries no
    /// data.
    pub fn configure(_args: &ExampleConfigureArgs) -> (r: Result<(), ConfigurationError>)
        ensures
            r is Ok,
    {
        Ok(())
    }

    /// The example configuration is always valid.
    pub fn validate_raw_configuration(_configuration: &()) -> (r: Result<(), ConfigurationError>)
        ensures
            r is Ok,
    {
        Ok(())
    }
}

} // verus!
