//! Index records of the current catalog and reservations of legacy namespaces.
use vstd::prelude::*;

use super::definitions::ValidatedDynamicIndexDefinition;

verus! {

/// Identity of one lifecycle operation.
#[derive(Debug, Clone, Copy, PartialEq, Eq, Structural)]
pub struct IndexOperationId(pub u128);

/// Lifecycle state of an index record.
#[derive(Debug, Clone, Copy, PartialEq, Eq, Structural)]
pub enum IndexState {
    Building { build_operation_id: IndexOperationId },
    Aborting { build_operation_id: IndexOperationId },
    Active,
    Dropping { drop_operation_id: IndexOperationId },
    Dropped,
}

/// Physical rows that a record owns.
#[derive(Debug, Clone, Copy, PartialEq, Eq, Structural)]
pub enum PhysicalLayout {
    /// No physical rows.
    Released,
    /// Rows of a secondary index.
    Secondary,
    /// Vector namespaces of several partitions.
    VectorPartitioned,
    /// One vector namespace.
    VectorUnpartitioned { physical_index_id: u64 },
    /// Rows of a text index.
    Text,
}

/// One index record of the current catalog.
#[derive(Debug)]
pub struct IndexRecord {
    pub index_id: u64,
    pub generation: u64,
    pub definition: ValidatedDynamicIndexDefinition,
    pub state: IndexState,
    pub physical: PhysicalLayout,
}

/// Who holds a vector namespace that is derived from a legacy name.
#[derive(Debug, Clone, Copy, PartialEq, Eq, Structural)]
pub enum LegacyVectorPhysicalReservation {
    /// The legacy source alone.
    LegacySource,
    /// A record that is taking the namespace over.
    AdoptionBuilding { index_id: u64, generation: u64, operation_id: IndexOperationId },
    /// A record that has taken the namespace over.
    AdoptedActive { index_id: u64, generation: u64 },
    /// The migration, on behalf of an active record that lives elsewhere.
    RetiringSource { index_id: u64, generation: u64 },
}

} // verus!
