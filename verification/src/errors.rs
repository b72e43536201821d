//! The translator's error taxonomy.
//!
//! Every failure is either an invalid request (malformed or
//! self-contradictory input) or an unsupported operation (well-formed input
//! that the IR cannot express).  Each variant names one translation rule;
//! the human-readable message and the class are derived from the variant.

use vstd::prelude::*;

verus! {

/// One translation failure.
#[derive(PartialEq, Eq, Structural, Clone, Copy, Debug)]
pub enum TranslationError {
    /// A target or table name with zero or several segments.
    MultiSegmentTargetName,
    /// An interpolated (parameterized) target.
    InterpolatedTargetUnsupported,
    /// A structured object field.
    ObjectFieldsUnsupported,
    /// A structured array field.
    ArrayFieldsUnsupported,
    /// An aggregate-row limit while plain fields are also requested.
    AggregatesLimitWithFields,
    /// A field-row limit while aggregates are also requested.
    FieldsLimitWithAggregates,
    /// Both a field-row limit and an aggregate-row limit.
    ConflictingLimits,
    /// A limit outside the unsigned 32-bit range.
    LimitOutOfRange,
    /// An offset outside the unsigned 32-bit range.
    OffsetOutOfRange,
    /// A unary comparison operator other than the null test.
    UnknownUnaryOperator,
    /// A binary array comparison operator other than the membership test.
    UnknownArrayOperator,
    /// A comparison column path other than the empty path or the root
    /// reference.
    InvalidComparisonPath,
    /// A compound (multi-segment) column selector.
    CompoundColumnSelector,
    /// An order-by path segment missing from the relation-filter tree.
    OrderByRelationNotFound,
    /// A source table missing from the relationship groupings.
    TableNotFound,
    /// A relationship name missing from its source table's grouping.
    RelationshipNotFound,
}

/// The two failure classes of the legacy protocol.
#[derive(PartialEq, Eq, Structural, Clone, Copy, Debug)]
pub enum ErrorKind {
    InvalidRequest,
    UnsupportedOperation,
}

impl TranslationError {
    /// The failure class of this error: well-formed but inexpressible
    /// constructs are unsupported operations, everything else is an invalid
    /// request.
    pub open spec fn kind_spec(self) -> ErrorKind {
        match self {
            TranslationError::InterpolatedTargetUnsupported => ErrorKind::UnsupportedOperation,
            TranslationError::UnknownUnaryOperator => ErrorKind::UnsupportedOperation,
            TranslationError::UnknownArrayOperator => ErrorKind::UnsupportedOperation,
            _ => ErrorKind::InvalidRequest,
        }
    }

    /// The failure class of this error.
    pub fn kind(&self) -> (k: ErrorKind)
        ensures
            k == self.kind_spec(),
    {
        match self {
            TranslationError::InterpolatedTargetUnsupported => ErrorKind::UnsupportedOperation,
            TranslationError::UnknownUnaryOperator => ErrorKind::UnsupportedOperation,
            TranslationError::UnknownArrayOperator => ErrorKind::UnsupportedOperation,
            _ => ErrorKind::InvalidRequest,
        }
    }

    /// The human-readable message of this error.
    pub fn message(&self) -> (m: &'static str)
        ensures
            m@ == self.message_spec(),
    {
        match self {
            TranslationError::MultiSegmentTargetName => "Expected name to be an array with exactly one string member",
            TranslationError::InterpolatedTargetUnsupported => "Interpolated queries not supported",
            TranslationError::ObjectFieldsUnsupported => "Object fields not supported",
            TranslationError::ArrayFieldsUnsupported => "Array fields not supported",
            TranslationError::AggregatesLimitWithFields => "Setting limit for aggregates when fields also requested is not supported",
            TranslationError::FieldsLimitWithAggregates => "Setting limit for fields when aggregates also requested is not supported",
            TranslationError::ConflictingLimits => "Different limits for aggregates and fields not supported",
            TranslationError::LimitOutOfRange => "Limit must be valid u32",
            TranslationError::OffsetOutOfRange => "Offset must be valid u32",
            TranslationError::UnknownUnaryOperator => "Unknown unary comparison operator",
            TranslationError::UnknownArrayOperator => "Unknown binary array comparison operator",
            TranslationError::InvalidComparisonPath => "Valid values for path are empty array, or array with $ reference to closest query target",
            TranslationError::CompoundColumnSelector => "Compound column selectors not supported",
            TranslationError::OrderByRelationNotFound => "Could not find order by relationship for path segment",
            TranslationError::TableNotFound => "Could not find table in relationships",
            TranslationError::RelationshipNotFound => "Could not find relationship in table",
        }
    }

    /// The message of this error, as a character sequence.
    pub open spec fn message_spec(self) -> Seq<char> {
        match self {
            TranslationError::MultiSegmentTargetName => "Expected name to be an array with exactly one string member"@,
            TranslationError::InterpolatedTargetUnsupported => "Interpolated queries not supported"@,
            TranslationError::ObjectFieldsUnsupported => "Object fields not supported"@,
            TranslationError::ArrayFieldsUnsupported => "Array fields not supported"@,
            TranslationError::AggregatesLimitWithFields => "Setting limit for aggregates when fields also requested is not supported"@,
            TranslationError::FieldsLimitWithAggregates => "Setting limit for fields when aggregates also requested is not supported"@,
            TranslationError::ConflictingLimits => "Different limits for aggregates and fields not supported"@,
            TranslationError::LimitOutOfRange => "Limit must be valid u32"@,
            TranslationError::OffsetOutOfRange => "Offset must be valid u32"@,
            TranslationError::UnknownUnaryOperator => "Unknown unary comparison operator"@,
            TranslationError::UnknownArrayOperator => "Unknown binary array comparison operator"@,
            TranslationError::InvalidComparisonPath => "Valid values for path are empty array, or array with $ reference to closest query target"@,
            TranslationError::CompoundColumnSelector => "Compound column selectors not supported"@,
            TranslationError::OrderByRelationNotFound => "Could not find order by relationship for path segment"@,
            TranslationError::TableNotFound => "Could not find table in relationships"@,
            TranslationError::RelationshipNotFound => "Could not find relationship in table"@,
        }
    }
}

} // verus!
