//! Backward-compatibility translator for a data-connector protocol.
//!
//! The library rewrites queries arriving in a legacy wire format into the
//! current protocol's query intermediate representation (IR), and rewrites
//! current-format responses back into the legacy response shape.  Constructs
//! that the IR cannot express are reported as structured errors, never
//! silently dropped.

pub mod connector;
pub mod errors;
pub mod ir;
pub mod laws;
pub mod legacy;
pub mod response;
pub mod schema;
pub mod secret;
pub mod translate;
pub mod values;
