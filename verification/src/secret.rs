//! Secret-valued configuration strings.

use vstd::prelude::*;

verus! {

/// Either a literal string or a reference to a named secret drawn from a
/// secret store.
#[derive(Debug)]
pub enum SecretValueImpl {
    Value(String),
    StringValueFromSecret(String),
}

/// Use this type to refer to secret strings within a connector's
/// configuration types, for example a connection string which might contain
/// a password.
#[derive(Debug)]
pub struct SecretValue(pub SecretValueImpl);

} // verus!
