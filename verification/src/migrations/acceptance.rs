//! Verdicts on a store that a migration has run on, over what was read back from it.
use vstd::prelude::*;

use super::digest::VectorRow;
use super::failpoints::MigrationFailpoint;
use super::job::{MigrationId, MigrationJob, MigrationJobState, MigrationStage};
use super::markers::StorageSchemaProgress;
use super::records::{IndexRecord, IndexState, LegacyVectorPhysicalReservation, PhysicalLayout};
use super::recovery::{same_bytes, VectorRecoveryStage};
use crate::error::HelixDbError;
use crate::json::{json_split, JsonNode, JsonTree};
use crate::migrations::definitions::IndexElementKind;
use crate::text::{decimal_text, joined, joined3};

verus! {

/// What was read back of the legacy catalog and of the markers that follow it.
#[derive(Debug, Clone, Copy, PartialEq, Eq, Structural)]
pub struct CatalogReadback {
    /// Rows that are left in the legacy catalog.
    pub legacy_rows: usize,
    /// Whether the index migration shows as ready.
    pub index_ready: bool,
    /// Whether the storage schema shows as complete.
    pub schema_complete: bool,
}

impl CatalogReadback {
    /// Whether the legacy catalog is gone and every stage behind it published.
    pub fn is_retired(self) -> (retired: bool)
        ensures
            retired == (self.legacy_rows == 0 && self.index_ready && self.schema_complete),
    {
        self.legacy_rows == 0 && self.index_ready && self.schema_complete
    }
}

/// Whether a record is live in exactly this legacy namespace and holds it by adoption.
pub open spec fn is_adopted(
    record: IndexRecord,
    reservation: Option<LegacyVectorPhysicalReservation>,
    physical_id: u64,
) -> bool {
    &&& record.state is Active
    &&& record.physical == PhysicalLayout::VectorUnpartitioned { physical_index_id: physical_id }
    &&& super::convergence::owns_by_adoption(record, reservation)
}

fn lives_in(record: &IndexRecord, physical_id: u64) -> (lives: bool)
    ensures
        lives == (record.state is Active && record.physical
            == PhysicalLayout::VectorUnpartitioned { physical_index_id: physical_id }),
{
    let active = match record.state {
        IndexState::Active => true,
        _ => false,
    };
    active && record.physical == PhysicalLayout::VectorUnpartitioned {
        physical_index_id: physical_id,
    }
}

/// Judges an adoption: the record lives in the legacy namespace and holds it, and no
/// graph row was rewritten.
pub fn adoption_holds(
    record: &IndexRecord,
    reservation: Option<LegacyVectorPhysicalReservation>,
    physical_id: u64,
    digest_before: &[u8],
    digest_after: &[u8],
) -> (holds: bool)
    ensures
        holds == (is_adopted(*record, reservation, physical_id) && digest_before@
            == digest_after@),
{
    let owns = match reservation {
        Some(LegacyVectorPhysicalReservation::AdoptedActive { index_id, generation }) => index_id
            == record.index_id && generation == record.generation,
        _ => false,
    };
    lives_in(record, physical_id) && owns && same_bytes(digest_before, digest_after)
}

/// The name that an adopted namespace takes in its rewritten metadata.
pub open spec fn adopted_name(index_id: u64, generation: u64, physical_id: u64) -> Seq<char> {
    "v2-vector-"@ + crate::text::decimal(index_id as nat) + "-"@ + crate::text::decimal(
        generation as nat,
    ) + "-"@ + crate::text::decimal(physical_id as nat)
}

/// Writes the name that an adopted namespace takes in its rewritten metadata.
pub fn adopted_index_name(index_id: u64, generation: u64, physical_id: u64) -> (name: String)
    ensures
        name@ == adopted_name(index_id, generation, physical_id),
{
    let index = decimal_text(index_id);
    let generation = decimal_text(generation);
    let physical = decimal_text(physical_id);
    let start = joined3("v2-vector-", index.as_str(), "-");
    let start = joined3(start.as_str(), generation.as_str(), "-");
    joined(start.as_str(), physical.as_str())
}

/// The boundaries at which an adoption is interrupted, in their order.
pub open spec fn adoption_boundary_order() -> Seq<MigrationFailpoint> {
    seq![
        MigrationFailpoint::LegacyVectorValidationCheckpointBefore,
        MigrationFailpoint::LegacyVectorValidationCheckpointAfter,
        MigrationFailpoint::LegacyVectorMetadataPublicationBefore,
        MigrationFailpoint::LegacyVectorMetadataPublicationAfter,
        MigrationFailpoint::LegacyVectorReservationTransitionBefore,
        MigrationFailpoint::LegacyVectorReservationTransitionAfter,
        MigrationFailpoint::LegacyDefinitionRetirementBefore,
        MigrationFailpoint::LegacyDefinitionRetirementAfter,
    ]
}

/// Lists the boundaries at which an adoption is interrupted.
pub fn adoption_boundaries() -> (boundaries: Vec<MigrationFailpoint>)
    ensures
        boundaries@ == adoption_boundary_order(),
{
    let boundaries = vec![
        MigrationFailpoint::LegacyVectorValidationCheckpointBefore,
        MigrationFailpoint::LegacyVectorValidationCheckpointAfter,
        MigrationFailpoint::LegacyVectorMetadataPublicationBefore,
        MigrationFailpoint::LegacyVectorMetadataPublicationAfter,
        MigrationFailpoint::LegacyVectorReservationTransitionBefore,
        MigrationFailpoint::LegacyVectorReservationTransitionAfter,
        MigrationFailpoint::LegacyDefinitionRetirementBefore,
        MigrationFailpoint::LegacyDefinitionRetirementAfter,
    ];
    assert(boundaries@ =~= adoption_boundary_order());
    boundaries
}

/// What was read back after an adoption was interrupted.
#[derive(Debug)]
pub struct InterruptedAdoption {
    /// Whether the injected boundary was reached.
    pub boundary_fired: bool,
    /// Why the writer did not open.
    pub error: HelixDbError,
    /// The legacy catalog and its markers.
    pub catalog: CatalogReadback,
    /// State of the record that takes the namespace over.
    pub state: IndexState,
    /// Whether its operation waits for a retry after a transient failure.
    pub waits_for_retry: bool,
}

impl InterruptedAdoption {
    /// Whether the interruption is typed and leaves everything to repeat.
    pub open spec fn is_repeatable(self) -> bool {
        &&& self.boundary_fired
        &&& self.error is MigrationRequired
        &&& self.catalog.legacy_rows == 1
        &&& !self.catalog.index_ready
        &&& self.state is Building
        &&& self.waits_for_retry
    }

    /// Judges an interrupted adoption: its failure is typed, its source untouched, its row
    /// kept, nothing published, and its build waits for a retry.
    pub fn holds(&self, digest_before: &[u8], digest_after: &[u8]) -> (holds: bool)
        ensures
            holds == (self.is_repeatable() && digest_before@ == digest_after@),
    {
        let typed = match self.error {
            HelixDbError::MigrationRequired { .. } => true,
            _ => false,
        };
        let building = match self.state {
            IndexState::Building { .. } => true,
            _ => false,
        };
        self.boundary_fired && typed && self.catalog.legacy_rows == 1 && !self.catalog.index_ready
            && building && self.waits_for_retry && same_bytes(digest_before, digest_after)
    }
}

/// Judges the recovery of an interrupted adoption: the record is live in the legacy
/// namespace under the index and generation that were allocated before, and no graph
/// row was rewritten.
pub fn adoption_recovery_holds(
    owner_before: (u64, u64),
    record: &IndexRecord,
    physical_id: u64,
    catalog: CatalogReadback,
    digest_before: &[u8],
    digest_after: &[u8],
) -> (holds: bool)
    ensures
        holds == (record.state is Active && record.physical
            == (PhysicalLayout::VectorUnpartitioned { physical_index_id: physical_id })
            && owner_before == (record.index_id, record.generation) && catalog == (
        CatalogReadback { legacy_rows: 0, index_ready: true, schema_complete: true })
            && digest_before@ == digest_after@),
{
    lives_in(record, physical_id) && owner_before.0 == record.index_id && owner_before.1
        == record.generation && catalog.is_retired() && same_bytes(digest_before, digest_after)
}

/// Judges a rebuild of an index that could not be adopted: it lives elsewhere, or in one
/// namespace per tenant, and the legacy namespace has neither rows nor a reservation.
pub fn rebuild_holds(
    record: &IndexRecord,
    per_tenant: bool,
    legacy_physical_id: u64,
    legacy_rows: usize,
    legacy_reservation: Option<LegacyVectorPhysicalReservation>,
) -> (holds: bool)
    ensures
        holds == (legacy_rows == 0 && legacy_reservation is None && if per_tenant {
            record.physical is VectorPartitioned
        } else {
            record.physical matches PhysicalLayout::VectorUnpartitioned { physical_index_id }
                && physical_index_id != legacy_physical_id
        }),
{
    let elsewhere = match record.physical {
        PhysicalLayout::VectorPartitioned => per_tenant,
        PhysicalLayout::VectorUnpartitioned { physical_index_id } => !per_tenant
            && physical_index_id != legacy_physical_id,
        _ => false,
    };
    legacy_rows == 0 && legacy_reservation.is_none() && elsewhere
}

/// Keys and values of rows.
pub open spec fn row_bytes(rows: Seq<VectorRow>) -> Seq<(Seq<u8>, Seq<u8>)> {
    Seq::new(rows.len(), |i: int| (rows[i].key@, rows[i].value@))
}

fn same_rows(left: &Vec<VectorRow>, right: &Vec<VectorRow>) -> (same: bool)
    ensures
        same == (row_bytes(left@) == row_bytes(right@)),
{
    if left.len() != right.len() {
        assert(row_bytes(left@).len() != row_bytes(right@).len());
        return false;
    }
    let mut position: usize = 0;
    while position < left.len()
        invariant
            position <= left.len() == right.len(),
            forall|i: int|
                0 <= i < position ==> #[trigger] row_bytes(left@)[i] == row_bytes(right@)[i],
        decreases left.len() - position,
    {
        let one = &left[position];
        let other = &right[position];
        assert(row_bytes(left@)[position as int] == (one.key@, one.value@));
        assert(row_bytes(right@)[position as int] == (other.key@, other.value@));
        if !same_bytes(one.key.as_slice(), other.key.as_slice()) || !same_bytes(
            one.value.as_slice(),
            other.value.as_slice(),
        ) {
            return false;
        }
        position = position + 1;
    }
    assert(row_bytes(left@) =~= row_bytes(right@));
    true
}

/// Judges a refused open: the catalog row is there byte for byte, and so is every row of
/// the namespace.
pub fn refusal_preserves_sources(
    opened: bool,
    catalog_before: &[u8],
    catalog_after: Option<&[u8]>,
    rows_before: &Vec<VectorRow>,
    rows_after: &Vec<VectorRow>,
) -> (preserves: bool)
    ensures
        preserves == (!opened && (catalog_after matches Some(after) && after@ == catalog_before@)
            && row_bytes(rows_before@) == row_bytes(rows_after@)),
{
    let kept = match catalog_after {
        Some(after) => same_bytes(after, catalog_before),
        None => false,
    };
    !opened && kept && same_rows(rows_before, rows_after)
}

/// Judges a materialization that met a vector of no length: the failure names the
/// element, and the job keeps the cursor behind the element before it.
pub fn zero_cosine_failure_holds(
    error: &HelixDbError,
    entity_id: u64,
    job: &MigrationJob,
    preceding_key: &[u8],
) -> (holds: bool)
    ensures
        holds == (*error == (HelixDbError::LegacyZeroNormCosineVector {
            element_kind: IndexElementKind::Node,
            entity_id,
        }) && job.id is LegacyVectorPropertyMaterialization && (
        job.state@ matches super::job::JobState::Failed {
            stage,
            resume_after_key,
            processed_rows,
            ..
        } && stage is NodeProperties && processed_rows == 1 && resume_after_key == Some(
            preceding_key@,
        ))),
{
    let named = match error {
        HelixDbError::LegacyZeroNormCosineVector {
            element_kind: IndexElementKind::Node,
            entity_id: found,
        } => *found == entity_id,
        _ => false,
    };
    let own = match job.id {
        MigrationId::LegacyVectorPropertyMaterialization => true,
        _ => false,
    };
    let kept = match &job.state {
        MigrationJobState::Failed { stage, resume_after_key, processed_rows, .. } => {
            let at_nodes = match stage {
                MigrationStage::NodeProperties => true,
                _ => false,
            };
            let behind = match resume_after_key {
                Some(key) => same_bytes(key.as_bytes(), preceding_key),
                None => false,
            };
            at_nodes && behind && *processed_rows == 1
        },
        _ => false,
    };
    named && own && kept
}

/// The schema progress that a writer open leaves which is interrupted at a boundary, for
/// the boundaries that bear on readers.
pub open spec fn boundary_progress(failpoint: MigrationFailpoint) -> Option<
    StorageSchemaProgress,
> {
    match failpoint {
        MigrationFailpoint::BatchCommitAfter => Some(StorageSchemaProgress::NotStarted),
        MigrationFailpoint::MigrationReadyPublicationAfter => Some(
            StorageSchemaProgress::IndexReady,
        ),
        MigrationFailpoint::StorageSchemaCompletionBefore => Some(
            StorageSchemaProgress::IndexReady,
        ),
        _ => None,
    }
}

/// The schema progress that a writer open leaves which is interrupted at a boundary.
pub fn progress_at_boundary(failpoint: MigrationFailpoint) -> (progress: Option<
    StorageSchemaProgress,
>)
    ensures
        progress == boundary_progress(failpoint),
{
    match failpoint {
        MigrationFailpoint::BatchCommitAfter => Some(StorageSchemaProgress::NotStarted),
        MigrationFailpoint::MigrationReadyPublicationAfter
        | MigrationFailpoint::StorageSchemaCompletionBefore => Some(
            StorageSchemaProgress::IndexReady,
        ),
        _ => None,
    }
}

/// Whether a reader can open a store: one that no writer has bootstrapped, or one whose
/// markers show a complete schema. Markers that are malformed or out of order show none.
pub open spec fn lets_readers_in(
    bootstrapped: bool,
    progress: Option<StorageSchemaProgress>,
) -> bool {
    !bootstrapped || progress == Some(StorageSchemaProgress::Complete)
}

/// Whether a reader can open a store whose markers show this progress.
pub fn reader_opens(
    bootstrapped: bool,
    progress: &Result<StorageSchemaProgress, HelixDbError>,
) -> (opens: bool)
    ensures
        opens == lets_readers_in(
            bootstrapped,
            match *progress {
                Ok(progress) => Some(progress),
                Err(_) => None,
            },
        ),
{
    if !bootstrapped {
        return true;
    }
    match progress {
        Ok(StorageSchemaProgress::Complete) => true,
        _ => false,
    }
}

/// A writer open that is interrupted before the schema is complete keeps readers out, and
/// publishing the completion lets them in.
pub proof fn law_readers_wait_for_completion(
    failpoint: MigrationFailpoint,
    graph: bool,
    index: bool,
    schema: bool,
)
    ensures
        boundary_progress(failpoint) is Some ==> !lets_readers_in(
            true,
            boundary_progress(failpoint),
        ),
        lets_readers_in(true, super::markers::progress_of(graph, index, schema)) <==> graph
            && index && schema,
{
}

/// Whether a writer refuses inconsistent bootstrap metadata with a failure of its own.
pub fn is_bootstrap_rejection(error: &HelixDbError) -> (rejects: bool)
    ensures
        rejects == (*error is MigrationRequired || *error is UnsupportedIndexStorageVersion),
{
    match error {
        HelixDbError::MigrationRequired { .. }
        | HelixDbError::UnsupportedIndexStorageVersion { .. } => true,
        _ => false,
    }
}

/// What the recovery of an interrupted vector stage has to show.
#[derive(Debug, Clone, Copy, PartialEq, Eq, Structural)]
pub enum VectorRecoveryExpectation {
    /// The node has its vector beside the properties it had.
    MaterializedNode,
    /// The edge has its vector beside the properties it had.
    MaterializedEdge,
    /// The legacy namespace is gone and the current one as it was.
    Retired,
}

/// What was read back after an interrupted vector stage was recovered.
#[derive(Debug, Clone, Copy, PartialEq, Eq, Structural)]
pub struct RecoveredVectors {
    /// Whether the migration of the stage is complete.
    pub migration_completed: bool,
    /// The legacy catalog and its markers.
    pub catalog: CatalogReadback,
    /// Whether the node row holds its vector and its other properties.
    pub node_materialized: bool,
    /// Whether the edge row holds its vector and its other properties.
    pub edge_materialized: bool,
    /// Whether the digest of the current namespace is what it was.
    pub current_rows_kept: bool,
    /// Rows that are left in the legacy namespace.
    pub retired_rows: usize,
}

impl VectorRecoveryStage {
    /// What the recovery of the stage has to show.
    pub open spec fn expected(self) -> VectorRecoveryExpectation {
        match self {
            VectorRecoveryStage::MaterializeNodes => VectorRecoveryExpectation::MaterializedNode,
            VectorRecoveryStage::MaterializeEdges => VectorRecoveryExpectation::MaterializedEdge,
            _ => VectorRecoveryExpectation::Retired,
        }
    }

    /// What the recovery of the stage has to show.
    pub fn expectation(self) -> (expectation: VectorRecoveryExpectation)
        ensures
            expectation == self.expected(),
    {
        match self {
            VectorRecoveryStage::MaterializeNodes => VectorRecoveryExpectation::MaterializedNode,
            VectorRecoveryStage::MaterializeEdges => VectorRecoveryExpectation::MaterializedEdge,
            _ => VectorRecoveryExpectation::Retired,
        }
    }
}

/// Judges what a recovery left.
pub fn vector_recovery_holds(stage: VectorRecoveryStage, left: RecoveredVectors) -> (holds: bool)
    ensures
        holds == (left.migration_completed && left.catalog == (CatalogReadback {
            legacy_rows: 0,
            index_ready: true,
            schema_complete: true,
        }) && match stage.expected() {
            VectorRecoveryExpectation::MaterializedNode => left.node_materialized,
            VectorRecoveryExpectation::MaterializedEdge => left.edge_materialized,
            VectorRecoveryExpectation::Retired => left.current_rows_kept && left.retired_rows
                == 0,
        }),
{
    let shows = match stage.expectation() {
        VectorRecoveryExpectation::MaterializedNode => left.node_materialized,
        VectorRecoveryExpectation::MaterializedEdge => left.edge_materialized,
        VectorRecoveryExpectation::Retired => left.current_rows_kept && left.retired_rows == 0,
    };
    left.migration_completed && left.catalog.is_retired() && shows
}

/// The vector stages in the order of their migrations.
pub open spec fn recovery_stage_order() -> Seq<VectorRecoveryStage> {
    seq![
        VectorRecoveryStage::MaterializeNodes,
        VectorRecoveryStage::MaterializeEdges,
        VectorRecoveryStage::FenceLegacySources,
        VectorRecoveryStage::RetireHotRows,
        VectorRecoveryStage::RetireLayerZeroRows,
        VectorRecoveryStage::RetireCoreRows,
        VectorRecoveryStage::RetireDefinitions,
        VectorRecoveryStage::ReleaseReservations,
    ]
}

/// The boundaries that every batch can be interrupted at.
pub open spec fn generic_boundary_order() -> Seq<MigrationFailpoint> {
    seq![
        MigrationFailpoint::BatchReadBefore,
        MigrationFailpoint::BatchReadAfter,
        MigrationFailpoint::BatchWriteBefore,
        MigrationFailpoint::BatchWriteAfter,
        MigrationFailpoint::BatchCommitBefore,
        MigrationFailpoint::BatchCommitAfter,
        MigrationFailpoint::StageTransitionBefore,
        MigrationFailpoint::StageTransitionAfter,
    ]
}

/// Lists every vector stage with every generic boundary.
pub fn recovery_cases() -> (cases: Vec<(VectorRecoveryStage, MigrationFailpoint)>)
    ensures
        cases@.len() == 64,
        forall|i: int|
            0 <= i < 64 ==> #[trigger] cases@[i] == (
                recovery_stage_order()[i / 8],
                generic_boundary_order()[i % 8],
            ),
{
    let stages = vec![
        VectorRecoveryStage::MaterializeNodes,
        VectorRecoveryStage::MaterializeEdges,
        VectorRecoveryStage::FenceLegacySources,
        VectorRecoveryStage::RetireHotRows,
        VectorRecoveryStage::RetireLayerZeroRows,
        VectorRecoveryStage::RetireCoreRows,
        VectorRecoveryStage::RetireDefinitions,
        VectorRecoveryStage::ReleaseReservations,
    ];
    let boundaries = vec![
        MigrationFailpoint::BatchReadBefore,
        MigrationFailpoint::BatchReadAfter,
        MigrationFailpoint::BatchWriteBefore,
        MigrationFailpoint::BatchWriteAfter,
        MigrationFailpoint::BatchCommitBefore,
        MigrationFailpoint::BatchCommitAfter,
        MigrationFailpoint::StageTransitionBefore,
        MigrationFailpoint::StageTransitionAfter,
    ];
    assert(stages@ =~= recovery_stage_order());
    assert(boundaries@ =~= generic_boundary_order());
    let mut cases: Vec<(VectorRecoveryStage, MigrationFailpoint)> = Vec::new();
    let mut position: usize = 0;
    while position < 64
        invariant
            position <= 64,
            cases@.len() == position,
            stages@ == recovery_stage_order(),
            boundaries@ == generic_boundary_order(),
            forall|i: int|
                0 <= i < position ==> #[trigger] cases@[i] == (
                    recovery_stage_order()[i / 8],
                    generic_boundary_order()[i % 8],
                ),
        decreases 64 - position,
    {
        cases.push((stages[position / 8], boundaries[position % 8]));
        position = position + 1;
    }
    cases
}

/// The cases are complete and none occurs twice.
pub proof fn law_recovery_cases_are_complete(
    stage: VectorRecoveryStage,
    failpoint: MigrationFailpoint,
)
    requires
        super::recovery::is_generic_boundary(failpoint),
    ensures
        exists|i: int|
            0 <= i < 64 && #[trigger] recovery_stage_order()[i / 8] == stage
                && generic_boundary_order()[i % 8] == failpoint,
        forall|i: int, j: int|
            0 <= i < 64 && 0 <= j < 64 && #[trigger] recovery_stage_order()[i / 8] == stage
                && #[trigger] recovery_stage_order()[j / 8] == stage
                && generic_boundary_order()[i % 8] == failpoint && generic_boundary_order()[j % 8]
                == failpoint ==> i == j,
{
    let row = match stage {
        VectorRecoveryStage::MaterializeNodes => 0int,
        VectorRecoveryStage::MaterializeEdges => 1,
        VectorRecoveryStage::FenceLegacySources => 2,
        VectorRecoveryStage::RetireHotRows => 3,
        VectorRecoveryStage::RetireLayerZeroRows => 4,
        VectorRecoveryStage::RetireCoreRows => 5,
        VectorRecoveryStage::RetireDefinitions => 6,
        VectorRecoveryStage::ReleaseReservations => 7,
    };
    let column = match failpoint {
        MigrationFailpoint::BatchReadBefore => 0int,
        MigrationFailpoint::BatchReadAfter => 1,
        MigrationFailpoint::BatchWriteBefore => 2,
        MigrationFailpoint::BatchWriteAfter => 3,
        MigrationFailpoint::BatchCommitBefore => 4,
        MigrationFailpoint::BatchCommitAfter => 5,
        MigrationFailpoint::StageTransitionBefore => 6,
        _ => 7,
    };
    let i = 8 * row + column;
    assert(i / 8 == row && i % 8 == column);
    assert(recovery_stage_order()[i / 8] == stage);
    assert(generic_boundary_order()[i % 8] == failpoint);
    assert(forall|k: int|
        0 <= k < 8 && #[trigger] recovery_stage_order()[k] == stage ==> k == row);
    assert(forall|k: int|
        0 <= k < 8 && #[trigger] generic_boundary_order()[k] == failpoint ==> k == column);
    assert forall|i: int, j: int|
        0 <= i < 64 && 0 <= j < 64 && #[trigger] recovery_stage_order()[i / 8] == stage
            && #[trigger] recovery_stage_order()[j / 8] == stage && generic_boundary_order()[i % 8]
            == failpoint && generic_boundary_order()[j % 8] == failpoint implies i == j by {
        assert(i / 8 == row && j / 8 == row && i % 8 == column && j % 8 == column);
    }
}

/// The numbers of a list of trees, if all of them are unsigned integers.
pub open spec fn unsigned_numbers(trees: Seq<JsonTree>) -> Option<Seq<u64>> {
    if forall|i: int| 0 <= i < trees.len() ==> #[trigger] trees[i] is Unsigned {
        Some(Seq::new(trees.len(), |i: int| trees[i]->Unsigned_0))
    } else {
        None
    }
}

/// The numbers that a response lists under a name, unless there is no such list.
pub open spec fn numbers_under(response: JsonTree, name: Seq<char>) -> Option<Seq<u64>> {
    match response {
        JsonTree::Members(members) => if exists|i: int|
            0 <= i < members.len() && (#[trigger] members[i]).0 == name {
            let place = choose|i: int| 0 <= i < members.len() && (#[trigger] members[i]).0 == name;
            match members[place].1 {
                JsonTree::List(items) => unsigned_numbers(items),
                _ => None,
            }
        } else {
            None
        },
        _ => None,
    }
}

/// Whether numbers stand in ascending order.
pub open spec fn is_ascending(numbers: Seq<u64>) -> bool {
    forall|i: int, j: int| 0 <= i <= j < numbers.len() ==> numbers[i] <= numbers[j]
}

fn insert_in_order(numbers: &mut Vec<u64>, number: u64)
    requires
        is_ascending(old(numbers)@),
    ensures
        is_ascending(final(numbers)@),
        final(numbers)@.to_multiset() == old(numbers)@.to_multiset().insert(number),
{
    let mut place: usize = numbers.len();
    while place > 0 && numbers[place - 1] > number
        invariant
            place <= numbers@.len(),
            numbers@ == old(numbers)@,
            is_ascending(numbers@),
            forall|i: int| place <= i < numbers@.len() ==> numbers@[i] > number,
        decreases place,
    {
        place = place - 1;
    }
    let ghost before = numbers@;
    numbers.insert(place, number);
    proof {
        broadcast use vstd::seq_lib::group_to_multiset_ensures;

        assert(numbers@ == before.insert(place as int, number));
    }
}

/// Lists the numbers that a response holds under a name, in ascending order. There are
/// none where the response is no object, or the name stands for anything but a list of
/// unsigned integers.
pub fn returned_ids(response: serde_json::Value, name: &str) -> (ids: Option<Vec<u64>>)
    ensures
        match numbers_under(crate::json::json_tree(response), name@) {
            Some(numbers) => ids matches Some(ids) && is_ascending(ids@) && ids@.to_multiset()
                == numbers.to_multiset(),
            None => ids is None,
        },
{
    let members = match json_split(response) {
        JsonNode::Members(members) => members,
        _ => {
            return None;
        },
    };
    match member_named(members, name) {
        Some(value) => match json_split(value) {
            JsonNode::List(values) => ascending_numbers(values),
            _ => None,
        },
        None => None,
    }
}

fn member_named(members: Vec<(String, serde_json::Value)>, name: &str) -> (value: Option<
    serde_json::Value,
>)
    requires
        crate::json::distinct_names(crate::json::member_trees(members@)),
    ensures
        ({
            let trees = crate::json::member_trees(members@);
            match value {
                Some(value) => exists|i: int|
                    0 <= i < trees.len() && (#[trigger] trees[i]).0 == name@ && trees[i].1
                        == crate::json::json_tree(value) && forall|j: int|
                        0 <= j < trees.len() && (#[trigger] trees[j]).0 == name@ ==> j == i,
                None => forall|i: int| 0 <= i < trees.len() ==> (#[trigger] trees[i]).0 != name@,
            }
        }),
{
    let ghost all = members@;
    let ghost trees = crate::json::member_trees(all);
    let wanted = name.to_owned();
    for member in iter: members
        invariant
            iter.seq() == all,
            trees == crate::json::member_trees(all),
            crate::json::distinct_names(trees),
            wanted@ == name@,
            forall|i: int| 0 <= i < iter.index() ==> (#[trigger] trees[i]).0 != name@,
    {
        let ghost here = iter.index();
        let (found, value) = member;
        assert(trees[here] == (found@, crate::json::json_tree(value)));
        if found == wanted {
            assert forall|j: int| 0 <= j < trees.len() && (#[trigger] trees[j]).0 == name@ implies j
                == here by {
                if j < here {
                    assert(trees[j].0 != trees[here].0);
                } else if j > here {
                    assert(trees[here].0 != trees[j].0);
                }
            }
            return Some(value);
        }
    }
    None
}

fn ascending_numbers(values: Vec<serde_json::Value>) -> (numbers: Option<Vec<u64>>)
    ensures
        match unsigned_numbers(crate::json::list_trees(values@)) {
            Some(expected) => numbers matches Some(numbers) && is_ascending(numbers@)
                && numbers@.to_multiset() == expected.to_multiset(),
            None => numbers is None,
        },
{
    let ghost all = values@;
    let ghost trees = crate::json::list_trees(all);
    let ghost expected = Seq::new(trees.len(), |i: int| trees[i]->Unsigned_0);
    let mut numbers: Vec<u64> = Vec::new();
    proof {
        broadcast use vstd::seq_lib::group_to_multiset_ensures;

        assert(expected.take(0) =~= numbers@);
    }
    for value in iter: values
        invariant
            iter.seq() == all,
            trees == crate::json::list_trees(all),
            expected == Seq::new(trees.len(), |i: int| trees[i]->Unsigned_0),
            is_ascending(numbers@),
            forall|i: int| 0 <= i < iter.index() ==> #[trigger] trees[i] is Unsigned,
            numbers@.to_multiset() == expected.take(iter.index() as int).to_multiset(),
    {
        let ghost here = iter.index() as int;
        assert(trees[here] == crate::json::json_tree(value));
        match json_split(value) {
            JsonNode::Unsigned(number) => {
                insert_in_order(&mut numbers, number);
                proof {
                    broadcast use vstd::seq_lib::group_to_multiset_ensures;

                    assert(expected.take(here + 1) =~= expected.take(here).push(number));
                }
            },
            _ => {
                assert(!(trees[here] is Unsigned));
                return None;
            },
        }
    }
    assert(expected.take(expected.len() as int) =~= expected);
    Some(numbers)
}

/// An adopted record is live in the namespace that it took over, and its reservation names
/// it; nothing less is an adoption.
pub proof fn law_adoptions_are_live_and_reserved(
    record: IndexRecord,
    index_id: u64,
    generation: u64,
    physical_id: u64,
)
    ensures
        is_adopted(
            record,
            Some(LegacyVectorPhysicalReservation::AdoptedActive { index_id, generation }),
            physical_id,
        ) <==> record.state is Active && record.physical == (PhysicalLayout::VectorUnpartitioned {
            physical_index_id: physical_id,
        }) && record.index_id == index_id && record.generation == generation,
        !is_adopted(record, None, physical_id),
        !is_adopted(record, Some(LegacyVectorPhysicalReservation::LegacySource), physical_id),
{
}

/// The name of an adopted namespace is made of its index, its generation and its number.
pub proof fn law_adopted_names_are_made_of_numbers(
    index_id: u64,
    generation: u64,
    physical_id: u64,
)
    ensures
        adopted_name(index_id, generation, physical_id) == "v2-vector-"@ + crate::text::decimal(
            index_id as nat,
        ) + "-"@ + crate::text::decimal(generation as nat) + "-"@ + crate::text::decimal(
            physical_id as nat,
        ),
{
}

/// Adoptions are interrupted before and after each of four steps, in the order in which a
/// migration crosses these boundaries.
pub proof fn law_adoption_boundaries_come_in_order(failpoint: MigrationFailpoint)
    ensures
        adoption_boundary_order().contains(failpoint) <==> failpoint
            is LegacyVectorValidationCheckpointBefore || failpoint
            is LegacyVectorValidationCheckpointAfter || failpoint
            is LegacyVectorMetadataPublicationBefore || failpoint
            is LegacyVectorMetadataPublicationAfter || failpoint
            is LegacyVectorReservationTransitionBefore || failpoint
            is LegacyVectorReservationTransitionAfter || failpoint
            is LegacyDefinitionRetirementBefore || failpoint is LegacyDefinitionRetirementAfter,
        forall|i: int, j: int|
            0 <= i < j < adoption_boundary_order().len() ==> (
            #[trigger] adoption_boundary_order()[i]).position() < (
            #[trigger] adoption_boundary_order()[j]).position(),
{
    let order = adoption_boundary_order();
    assert(order[0] is LegacyVectorValidationCheckpointBefore);
    assert(order[1] is LegacyVectorValidationCheckpointAfter);
    assert(order[2] is LegacyVectorMetadataPublicationBefore);
    assert(order[3] is LegacyVectorMetadataPublicationAfter);
    assert(order[4] is LegacyVectorReservationTransitionBefore);
    assert(order[5] is LegacyVectorReservationTransitionAfter);
    assert(order[6] is LegacyDefinitionRetirementBefore);
    assert(order[7] is LegacyDefinitionRetirementAfter);
    if order.contains(failpoint) {
        let at = order.index_of(failpoint);
        assert(order[at] == failpoint);
    }
}

/// An interrupted adoption can be repeated exactly where its boundary was reached, its
/// failure asks for a migration, its row and its build are there and nothing is published.
pub proof fn law_interruptions_leave_everything_to_repeat(left: InterruptedAdoption)
    ensures
        left.is_repeatable() <==> left.boundary_fired && left.error is MigrationRequired
            && left.catalog.legacy_rows == 1 && !left.catalog.index_ready && left.state is Building
            && left.waits_for_retry,
{
}

/// Rows are compared by every key and every value, in their order.
pub proof fn law_rows_are_compared_byte_by_byte(left: Seq<VectorRow>, right: Seq<VectorRow>)
    ensures
        row_bytes(left) == row_bytes(right) <==> left.len() == right.len() && forall|i: int|
            0 <= i < left.len() ==> (#[trigger] left[i]).key@ == right[i].key@ && left[i].value@
                == right[i].value@,
{
    assert(row_bytes(left).len() == left.len() && row_bytes(right).len() == right.len());
    if row_bytes(left) == row_bytes(right) {
        assert forall|i: int| 0 <= i < left.len() implies (#[trigger] left[i]).key@ == right[i].key@
            && left[i].value@ == right[i].value@ by {
            assert(row_bytes(left)[i] == (left[i].key@, left[i].value@));
            assert(row_bytes(right)[i] == (right[i].key@, right[i].value@));
        }
    }
    if left.len() == right.len() && forall|i: int|
        0 <= i < left.len() ==> (#[trigger] left[i]).key@ == right[i].key@ && left[i].value@
            == right[i].value@ {
        assert(row_bytes(left) =~= row_bytes(right));
    }
}

/// A batch that was committed has published nothing, and behind the publication of the
/// catalog only the completion of the schema is missing.
pub proof fn law_boundaries_leave_their_progress(failpoint: MigrationFailpoint)
    ensures
        boundary_progress(failpoint) == Some(StorageSchemaProgress::NotStarted) <==> failpoint
            is BatchCommitAfter,
        boundary_progress(failpoint) == Some(StorageSchemaProgress::IndexReady) <==> failpoint
            is MigrationReadyPublicationAfter || failpoint is StorageSchemaCompletionBefore,
        boundary_progress(failpoint) is None <==> !(failpoint is BatchCommitAfter) && !(failpoint
            is MigrationReadyPublicationAfter) && !(failpoint is StorageSchemaCompletionBefore),
{
}

/// Readers open a store that no writer has touched, whatever its markers show.
pub proof fn law_readers_open_untouched_stores(progress: Option<StorageSchemaProgress>)
    ensures
        lets_readers_in(false, progress),
        lets_readers_in(true, progress) <==> progress == Some(StorageSchemaProgress::Complete),
{
}

/// Materialized stages have to show their own element, and all others a retired namespace.
pub proof fn law_stages_show_their_own_element(stage: VectorRecoveryStage)
    ensures
        stage.expected() is MaterializedNode <==> stage is MaterializeNodes,
        stage.expected() is MaterializedEdge <==> stage is MaterializeEdges,
        stage.expected() is Retired <==> stage.id_spec() is LegacyVectorPhysicalCleanup,
{
}

/// Recovered stages are listed by migration, in the order in which each goes through them.
pub proof fn law_recovered_stages_come_in_order()
    ensures
        recovery_stage_order().len() == 8 && generic_boundary_order().len() == 8,
        forall|i: int, j: int|
            0 <= i < j < 8 && (#[trigger] recovery_stage_order()[i]).id_spec() == (
            #[trigger] recovery_stage_order()[j]).id_spec() ==> recovery_stage_order()[i].rank()
                < recovery_stage_order()[j].rank(),
        forall|i: int, j: int|
            0 <= i < j < 8 ==> (#[trigger] generic_boundary_order()[i]).position() < (
            #[trigger] generic_boundary_order()[j]).position(),
        recovery_stage_order()[0] is MaterializeNodes && recovery_stage_order()[2]
            is FenceLegacySources,
{
    let stages = recovery_stage_order();
    assert(stages[0] is MaterializeNodes && stages[1] is MaterializeEdges && stages[2]
        is FenceLegacySources && stages[3] is RetireHotRows && stages[4] is RetireLayerZeroRows
        && stages[5] is RetireCoreRows && stages[6] is RetireDefinitions && stages[7]
        is ReleaseReservations);
    let boundaries = generic_boundary_order();
    assert(boundaries[0] is BatchReadBefore && boundaries[1] is BatchReadAfter && boundaries[2]
        is BatchWriteBefore && boundaries[3] is BatchWriteAfter && boundaries[4]
        is BatchCommitBefore && boundaries[5] is BatchCommitAfter && boundaries[6]
        is StageTransitionBefore && boundaries[7] is StageTransitionAfter);
}

/// A list of unsigned integers under a name is given number by number; anything else under
/// the name, or no such name, gives nothing.
pub proof fn law_numbers_are_found_under_their_name(
    members: Seq<(Seq<char>, JsonTree)>,
    place: int,
    other: Seq<char>,
)
    requires
        crate::json::distinct_names(members),
        0 <= place < members.len(),
    ensures
        members[place].1 matches JsonTree::List(items) ==> (forall|i: int|
            0 <= i < items.len() ==> #[trigger] items[i] is Unsigned) ==> (numbers_under(
            JsonTree::Members(members),
            members[place].0,
        ) matches Some(numbers) && numbers.len() == items.len() && forall|i: int|
            0 <= i < items.len() ==> #[trigger] items[i] == JsonTree::Unsigned(numbers[i])),
        !(members[place].1 is List) ==> numbers_under(
            JsonTree::Members(members),
            members[place].0,
        ) is None,
        (members[place].1 matches JsonTree::List(items) && exists|i: int|
            0 <= i < items.len() && !(#[trigger] items[i] is Unsigned)) ==> numbers_under(
            JsonTree::Members(members),
            members[place].0,
        ) is None,
        (forall|i: int| 0 <= i < members.len() ==> (#[trigger] members[i]).0 != other)
            ==> numbers_under(JsonTree::Members(members), other) is None,
{
    let name = members[place].0;
    let found = choose|i: int| 0 <= i < members.len() && (#[trigger] members[i]).0 == name;
    assert(members[place].0 == name);
    if found < place {
        assert(members[found].0 != members[place].0);
    } else if place < found {
        assert(members[place].0 != members[found].0);
    }
}

/// A sequence is ascending exactly where no number stands before a smaller one.
pub proof fn law_ascending_numbers_never_fall(numbers: Seq<u64>, left: int, right: int)
    requires
        0 <= left < right < numbers.len(),
    ensures
        numbers[left] > numbers[right] ==> !is_ascending(numbers),
{
}

} // verus!
