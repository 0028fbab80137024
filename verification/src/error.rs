//! Failures of the database runtime.
use vstd::prelude::*;

use crate::migrations::definitions::{
    DefinitionShape, IndexElementKind, ValidatedDynamicIndexDefinition, VectorDistanceMetric,
};
use crate::migrations::differences::DefinitionField;
use crate::text::{decimal_text, joined, joined3};

verus! {

/// Index family named by a lifecycle failure.
#[derive(Debug, Clone, Copy, PartialEq, Eq, Structural)]
pub enum IndexFamily {
    Secondary,
    Vector,
    Text,
    DynamicIndexes,
}

/// Why one index family cannot cross the public lifecycle boundary.
#[derive(Debug, Clone, Copy, PartialEq, Eq, Structural)]
pub enum IndexLifecycleUnavailableReason {
    MutationMaintenanceUnavailable,
}

/// Failure to decode one stored value.
#[derive(Debug, Clone, Copy, PartialEq, Eq, Structural)]
pub enum EncodingError {
    BufferTooShort { expected: usize, actual: usize },
}

/// Why a writer has to migrate the store before a reader can open it.
#[derive(Debug, Clone, Copy, PartialEq, Eq, Structural)]
pub enum WriterMigrationRequirement {
    /// A stage of the storage-schema migration is missing.
    IncompleteStorageSchema,
    /// The store has an older format.
    StorageVersion { found: u32, target: u32 },
}

impl WriterMigrationRequirement {
    /// What is shown of the requirement.
    pub open spec fn message(self) -> Seq<char> {
        match self {
            WriterMigrationRequirement::IncompleteStorageSchema =>
                "storage schema migration is incomplete"@,
            WriterMigrationRequirement::StorageVersion { found, target } => "storage version "@
                + crate::text::decimal(found as nat) + " must be upgraded to "@
                + crate::text::decimal(target as nat),
        }
    }

    /// What is shown of the requirement.
    pub fn text(self) -> (text: String)
        ensures
            text@ == self.message(),
    {
        match self {
            WriterMigrationRequirement::IncompleteStorageSchema =>
                "storage schema migration is incomplete".to_owned(),
            WriterMigrationRequirement::StorageVersion { found, target } => {
                let found = decimal_text(found as u64);
                let target = decimal_text(target as u64);
                let start = joined3("storage version ", found.as_str(), " must be upgraded to ");
                joined(start.as_str(), target.as_str())
            },
        }
    }
}

/// Failure of a database operation.
///
/// Components of vectors are carried as the bit patterns of their numbers.
#[allow(inconsistent_fields)]
#[derive(Debug, PartialEq, Eq)]
pub enum HelixDbError {
    Config(String),
    InvariantViolation(String),
    IndexCatalogCorruption(String),
    MigrationRequired { reason: String },
    WriterMigrationRequired { requirement: WriterMigrationRequirement },
    UnsupportedIndexStorageVersion { found: u32 },
    LegacyZeroNormCosineVector { element_kind: IndexElementKind, entity_id: u64 },
    WriterModeRequired { actual: &'static str },
    DatabaseClosed,
    SecondaryLifecycleSteppingRequiresDisabledMode,
    IndexLifecycleUnavailable { family: IndexFamily, reason: IndexLifecycleUnavailableReason },
    IndexDefinitionConflict {
        existing: Box<ValidatedDynamicIndexDefinition>,
        requested: Box<ValidatedDynamicIndexDefinition>,
        /// The fields in which they differ.
        differing_fields: Vec<DefinitionField>,
    },
    IndexNotFound(String),
    IndexOperationNotFound { operation_id: String },
    RequestReadViewChanged,
    QueryDeadlineExceeded,
    TransactionConflict(String),
    InvalidQueryJson(String),
    Query(String),
    InvalidDimension { expected: usize, got: usize },
    InvalidVectorComponent { index: usize },
    VectorComponentMagnitudeExceeded {
        metric: VectorDistanceMetric,
        dimension: usize,
        component_index: usize,
        observed_magnitude_bits: u64,
        inclusive_maximum_bits: u64,
    },
    ZeroNormCosineVector,
    InvalidVectorItem(String),
    UniqueConstraintViolation {
        label: String,
        property: String,
        value: String,
        existing_node_id: u64,
        attempted_node_id: u64,
    },
    Encoding(EncodingError),
    Storage(String),
}

impl HelixDbError {
    /// Whether this is a configuration failure with exactly this text.
    pub open spec fn is_config(self, text: Seq<char>) -> bool {
        self matches HelixDbError::Config(message) && message@ == text
    }

    /// Whether this is a broken-invariant failure with exactly this text.
    pub open spec fn is_invariant_violation(self, text: Seq<char>) -> bool {
        self matches HelixDbError::InvariantViolation(message) && message@ == text
    }

    /// Whether this is a corrupt-catalog failure with exactly this text.
    pub open spec fn is_corruption(self, text: Seq<char>) -> bool {
        self matches HelixDbError::IndexCatalogCorruption(message) && message@ == text
    }

    /// Whether this demands a migration for exactly this reason.
    pub open spec fn is_migration_required(self, text: Seq<char>) -> bool {
        self matches HelixDbError::MigrationRequired { reason } && reason@ == text
    }

    /// Whether a definition that exists stands in the way of exactly this one, with the
    /// fields in which the two differ.
    pub open spec fn is_definition_conflict(
        self,
        existing: DefinitionShape,
        requested: DefinitionShape,
    ) -> bool {
        self matches HelixDbError::IndexDefinitionConflict {
            existing: found,
            requested: wanted,
            differing_fields,
        } && found@ == existing && wanted@ == requested && differing_fields@
            == crate::migrations::differences::differing(existing, requested)
    }

    /// Whether this names exactly this lifecycle operation as missing.
    pub open spec fn is_operation_not_found(self, operation: Seq<char>) -> bool {
        self matches HelixDbError::IndexOperationNotFound { operation_id } && operation_id@
            == operation
    }

    /// Whether the request can be retried after a transaction conflict.
    pub fn is_transaction_conflict(&self) -> (conflict: bool)
        ensures
            conflict == (*self is TransactionConflict),
    {
        matches!(self, HelixDbError::TransactionConflict(_))
    }

    /// Whether the vector that a caller handed in is at fault.
    pub open spec fn blames_vector_input(self) -> bool {
        ||| self is InvalidDimension
        ||| self is InvalidVectorComponent
        ||| self is VectorComponentMagnitudeExceeded
        ||| self is ZeroNormCosineVector
    }

    /// Whether the vector that a caller handed in is at fault.
    pub fn is_invalid_vector_input(&self) -> (invalid: bool)
        ensures
            invalid == self.blames_vector_input(),
    {
        match self {
            HelixDbError::InvalidDimension { .. }
            | HelixDbError::InvalidVectorComponent { .. }
            | HelixDbError::VectorComponentMagnitudeExceeded { .. }
            | HelixDbError::ZeroNormCosineVector => true,
            _ => false,
        }
    }
}

/// A failure has one text, and it has a text only in its own kind.
pub proof fn law_failures_have_one_text(error: HelixDbError, text: Seq<char>, other: Seq<char>)
    ensures
        error.is_config(text) && error.is_config(other) ==> text == other,
        error.is_invariant_violation(text) && error.is_invariant_violation(other) ==> text == other,
        error.is_corruption(text) && error.is_corruption(other) ==> text == other,
        error.is_migration_required(text) && error.is_migration_required(other) ==> text == other,
        error.is_operation_not_found(text) && error.is_operation_not_found(other) ==> text == other,
        error.is_config(text) <==> (error matches HelixDbError::Config(shown) && shown@ == text),
        error.is_invariant_violation(text) <==> (error matches HelixDbError::InvariantViolation(
            shown,
        ) && shown@ == text),
        error.is_corruption(text) <==> (error matches HelixDbError::IndexCatalogCorruption(shown)
            && shown@ == text),
        error.is_migration_required(text) <==> (error matches HelixDbError::MigrationRequired {
            reason,
        } && reason@ == text),
        error.is_operation_not_found(text) <==> (error matches
            HelixDbError::IndexOperationNotFound { operation_id } && operation_id@ == text),
{
}

/// A conflict names the definition that exists, the one that was asked for, and a field for
/// every difference between them.
pub proof fn law_conflicts_name_both_definitions(
    error: HelixDbError,
    existing: DefinitionShape,
    requested: DefinitionShape,
)
    requires
        error.is_definition_conflict(existing, requested),
    ensures
        error matches HelixDbError::IndexDefinitionConflict {
            existing: found,
            requested: wanted,
            differing_fields,
        } && found@ == existing && wanted@ == requested && (differing_fields@.len() > 0 <==> existing
            != requested) && forall|field: DefinitionField| #[trigger]
            differing_fields@.contains(field) <==> crate::migrations::differences::differ_in(
                existing,
                requested,
                field,
            ),
{
    crate::migrations::differences::law_differences_are_exact(existing, requested);
}

/// A caller's vector is at fault for its dimension, its components, their size or its norm,
/// and for nothing else.
pub proof fn law_vector_faults_are_the_callers(error: HelixDbError)
    ensures
        error.blames_vector_input() <==> match error {
            HelixDbError::InvalidDimension { .. } => true,
            HelixDbError::InvalidVectorComponent { .. } => true,
            HelixDbError::VectorComponentMagnitudeExceeded { .. } => true,
            HelixDbError::ZeroNormCosineVector => true,
            _ => false,
        },
{
}

/// A reader is told why a writer has to migrate first, with both versions where the format
/// is older.
pub proof fn law_migration_requirements_are_told(found: u32, target: u32)
    ensures
        WriterMigrationRequirement::IncompleteStorageSchema.message()
            == "storage schema migration is incomplete"@,
        (WriterMigrationRequirement::StorageVersion { found, target }).message()
            == "storage version "@ + crate::text::decimal(found as nat) + " must be upgraded to "@
            + crate::text::decimal(target as nat),
{
}

} // verus!
