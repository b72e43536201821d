//! Opaque JSON scalar values.
//!
//! The translator never inspects the scalar values it carries: comparison
//! operands, function-call arguments, variable bindings and response cells
//! all pass through verbatim.  They are held as `serde_json::Value`, which is
//! declared here so that it can stand in fields and signatures; the verifier
//! treats such a value as opaque.

use vstd::prelude::*;

verus! {

#[verifier::external_type_specification]
#[verifier::external_body]
pub struct ExValue(serde_json::Value);

/// Relies on the derived `Clone` of `serde_json::Value`: cloning a pure JSON
/// value tree yields an equal value.
pub assume_specification[ <serde_json::Value as Clone>::clone ](
    v: &serde_json::Value,
) -> (r: serde_json::Value)
    ensures
        r == v,
;

/// The single JSON array value holding the given values in order.
pub uninterp spec fn array_of(values: Seq<serde_json::Value>) -> serde_json::Value;

/// Relies on `serde_json::Value::Array`: wraps the values into one JSON array
/// value, a function of the element sequence alone.
#[verifier::external_body]
pub fn to_array_value(values: Vec<serde_json::Value>) -> (r: serde_json::Value)
    ensures
        r == array_of(values@),
{
    serde_json::Value::Array(values)
}

} // verus!
