//! Crash-injection boundaries of the migrations.
use vstd::prelude::*;

use crate::error::HelixDbError;
use crate::json::{json_parse, json_split, json_text, json_write, JsonNode, JsonTree};
use crate::text::joined;

verus! {

/// Stable crash-injection boundaries used by the release recovery harness.
#[derive(Debug, Clone, Copy, PartialEq, Eq, Structural, Hash)]
pub enum MigrationFailpoint {
    JobCreationBeforeCommit,
    JobCreationAfterCommit,
    AllocatorReservationBefore,
    AllocatorReservationAfter,
    BatchReadBefore,
    BatchReadAfter,
    BatchWriteBefore,
    BatchWriteAfter,
    BatchCommitBefore,
    BatchCommitAfter,
    StageTransitionBefore,
    StageTransitionAfter,
    RewriteCompletionBefore,
    RewriteCompletionAfter,
    CleanupEnqueueBefore,
    CleanupEnqueueAfter,
    CleanupDeleteBefore,
    CleanupDeleteAfter,
    LegacyVectorReservationBefore,
    LegacyVectorReservationAfter,
    LegacyDefinitionEnqueueBefore,
    LegacyDefinitionEnqueueAfter,
    LegacyVectorValidationCheckpointBefore,
    LegacyVectorValidationCheckpointAfter,
    LegacyVectorMetadataPublicationBefore,
    LegacyVectorMetadataPublicationAfter,
    LegacyVectorReservationTransitionBefore,
    LegacyVectorReservationTransitionAfter,
    LegacyDefinitionRetirementBefore,
    LegacyDefinitionRetirementAfter,
    MigrationReadyPublicationBefore,
    MigrationReadyPublicationAfter,
    StorageSchemaCompletionBefore,
    StorageSchemaCompletionAfter,
    VectorDirectoryPreflightCommitBefore,
    VectorDirectoryPreflightCommitAfter,
    VectorDirectoryBackfillCommitBefore,
    VectorDirectoryBackfillCommitAfter,
    VectorDirectoryVerificationCommitBefore,
    VectorDirectoryVerificationCommitAfter,
    VectorDirectoryPublicationCommitBefore,
    VectorDirectoryPublicationCommitAfter,
}

impl MigrationFailpoint {
    /// Stable name of the boundary.
    pub open spec fn name(self) -> Seq<char> {
        match self {
            MigrationFailpoint::JobCreationBeforeCommit => "job_creation_before_commit"@,
            MigrationFailpoint::JobCreationAfterCommit => "job_creation_after_commit"@,
            MigrationFailpoint::AllocatorReservationBefore => "allocator_reservation_before"@,
            MigrationFailpoint::AllocatorReservationAfter => "allocator_reservation_after"@,
            MigrationFailpoint::BatchReadBefore => "batch_read_before"@,
            MigrationFailpoint::BatchReadAfter => "batch_read_after"@,
            MigrationFailpoint::BatchWriteBefore => "batch_write_before"@,
            MigrationFailpoint::BatchWriteAfter => "batch_write_after"@,
            MigrationFailpoint::BatchCommitBefore => "batch_commit_before"@,
            MigrationFailpoint::BatchCommitAfter => "batch_commit_after"@,
            MigrationFailpoint::StageTransitionBefore => "stage_transition_before"@,
            MigrationFailpoint::StageTransitionAfter => "stage_transition_after"@,
            MigrationFailpoint::RewriteCompletionBefore => "rewrite_completion_before"@,
            MigrationFailpoint::RewriteCompletionAfter => "rewrite_completion_after"@,
            MigrationFailpoint::CleanupEnqueueBefore => "cleanup_enqueue_before"@,
            MigrationFailpoint::CleanupEnqueueAfter => "cleanup_enqueue_after"@,
            MigrationFailpoint::CleanupDeleteBefore => "cleanup_delete_before"@,
            MigrationFailpoint::CleanupDeleteAfter => "cleanup_delete_after"@,
            MigrationFailpoint::LegacyVectorReservationBefore =>
                "legacy_vector_reservation_before"@,
            MigrationFailpoint::LegacyVectorReservationAfter => "legacy_vector_reservation_after"@,
            MigrationFailpoint::LegacyDefinitionEnqueueBefore =>
                "legacy_definition_enqueue_before"@,
            MigrationFailpoint::LegacyDefinitionEnqueueAfter => "legacy_definition_enqueue_after"@,
            MigrationFailpoint::LegacyVectorValidationCheckpointBefore =>
                "legacy_vector_validation_checkpoint_before"@,
            MigrationFailpoint::LegacyVectorValidationCheckpointAfter =>
                "legacy_vector_validation_checkpoint_after"@,
            MigrationFailpoint::LegacyVectorMetadataPublicationBefore =>
                "legacy_vector_metadata_publication_before"@,
            MigrationFailpoint::LegacyVectorMetadataPublicationAfter =>
                "legacy_vector_metadata_publication_after"@,
            MigrationFailpoint::LegacyVectorReservationTransitionBefore =>
                "legacy_vector_reservation_transition_before"@,
            MigrationFailpoint::LegacyVectorReservationTransitionAfter =>
                "legacy_vector_reservation_transition_after"@,
            MigrationFailpoint::LegacyDefinitionRetirementBefore =>
                "legacy_definition_retirement_before"@,
            MigrationFailpoint::LegacyDefinitionRetirementAfter =>
                "legacy_definition_retirement_after"@,
            MigrationFailpoint::MigrationReadyPublicationBefore =>
                "migration_ready_publication_before"@,
            MigrationFailpoint::MigrationReadyPublicationAfter =>
                "migration_ready_publication_after"@,
            MigrationFailpoint::StorageSchemaCompletionBefore =>
                "storage_schema_completion_before"@,
            MigrationFailpoint::StorageSchemaCompletionAfter => "storage_schema_completion_after"@,
            MigrationFailpoint::VectorDirectoryPreflightCommitBefore =>
                "vector_directory_preflight_commit_before"@,
            MigrationFailpoint::VectorDirectoryPreflightCommitAfter =>
                "vector_directory_preflight_commit_after"@,
            MigrationFailpoint::VectorDirectoryBackfillCommitBefore =>
                "vector_directory_backfill_commit_before"@,
            MigrationFailpoint::VectorDirectoryBackfillCommitAfter =>
                "vector_directory_backfill_commit_after"@,
            MigrationFailpoint::VectorDirectoryVerificationCommitBefore =>
                "vector_directory_verification_commit_before"@,
            MigrationFailpoint::VectorDirectoryVerificationCommitAfter =>
                "vector_directory_verification_commit_after"@,
            MigrationFailpoint::VectorDirectoryPublicationCommitBefore =>
                "vector_directory_publication_commit_before"@,
            MigrationFailpoint::VectorDirectoryPublicationCommitAfter =>
                "vector_directory_publication_commit_after"@,
        }
    }

    /// All boundaries in the order in which a migration crosses them.
    pub open spec fn all_boundaries() -> Seq<MigrationFailpoint> {
        seq![
            MigrationFailpoint::JobCreationBeforeCommit,
            MigrationFailpoint::JobCreationAfterCommit,
            MigrationFailpoint::AllocatorReservationBefore,
            MigrationFailpoint::AllocatorReservationAfter,
            MigrationFailpoint::BatchReadBefore,
            MigrationFailpoint::BatchReadAfter,
            MigrationFailpoint::BatchWriteBefore,
            MigrationFailpoint::BatchWriteAfter,
            MigrationFailpoint::BatchCommitBefore,
            MigrationFailpoint::BatchCommitAfter,
            MigrationFailpoint::StageTransitionBefore,
            MigrationFailpoint::StageTransitionAfter,
            MigrationFailpoint::RewriteCompletionBefore,
            MigrationFailpoint::RewriteCompletionAfter,
            MigrationFailpoint::CleanupEnqueueBefore,
            MigrationFailpoint::CleanupEnqueueAfter,
            MigrationFailpoint::CleanupDeleteBefore,
            MigrationFailpoint::CleanupDeleteAfter,
            MigrationFailpoint::LegacyVectorReservationBefore,
            MigrationFailpoint::LegacyVectorReservationAfter,
            MigrationFailpoint::LegacyDefinitionEnqueueBefore,
            MigrationFailpoint::LegacyDefinitionEnqueueAfter,
            MigrationFailpoint::LegacyVectorValidationCheckpointBefore,
            MigrationFailpoint::LegacyVectorValidationCheckpointAfter,
            MigrationFailpoint::LegacyVectorMetadataPublicationBefore,
            MigrationFailpoint::LegacyVectorMetadataPublicationAfter,
            MigrationFailpoint::LegacyVectorReservationTransitionBefore,
            MigrationFailpoint::LegacyVectorReservationTransitionAfter,
            MigrationFailpoint::LegacyDefinitionRetirementBefore,
            MigrationFailpoint::LegacyDefinitionRetirementAfter,
            MigrationFailpoint::MigrationReadyPublicationBefore,
            MigrationFailpoint::MigrationReadyPublicationAfter,
            MigrationFailpoint::StorageSchemaCompletionBefore,
            MigrationFailpoint::StorageSchemaCompletionAfter,
            MigrationFailpoint::VectorDirectoryPreflightCommitBefore,
            MigrationFailpoint::VectorDirectoryPreflightCommitAfter,
            MigrationFailpoint::VectorDirectoryBackfillCommitBefore,
            MigrationFailpoint::VectorDirectoryBackfillCommitAfter,
            MigrationFailpoint::VectorDirectoryVerificationCommitBefore,
            MigrationFailpoint::VectorDirectoryVerificationCommitAfter,
            MigrationFailpoint::VectorDirectoryPublicationCommitBefore,
            MigrationFailpoint::VectorDirectoryPublicationCommitAfter,
        ]
    }

    /// Position of the boundary among all of them.
    pub open spec fn position(self) -> int {
        match self {
            MigrationFailpoint::JobCreationBeforeCommit => 0,
            MigrationFailpoint::JobCreationAfterCommit => 1,
            MigrationFailpoint::AllocatorReservationBefore => 2,
            MigrationFailpoint::AllocatorReservationAfter => 3,
            MigrationFailpoint::BatchReadBefore => 4,
            MigrationFailpoint::BatchReadAfter => 5,
            MigrationFailpoint::BatchWriteBefore => 6,
            MigrationFailpoint::BatchWriteAfter => 7,
            MigrationFailpoint::BatchCommitBefore => 8,
            MigrationFailpoint::BatchCommitAfter => 9,
            MigrationFailpoint::StageTransitionBefore => 10,
            MigrationFailpoint::StageTransitionAfter => 11,
            MigrationFailpoint::RewriteCompletionBefore => 12,
            MigrationFailpoint::RewriteCompletionAfter => 13,
            MigrationFailpoint::CleanupEnqueueBefore => 14,
            MigrationFailpoint::CleanupEnqueueAfter => 15,
            MigrationFailpoint::CleanupDeleteBefore => 16,
            MigrationFailpoint::CleanupDeleteAfter => 17,
            MigrationFailpoint::LegacyVectorReservationBefore => 18,
            MigrationFailpoint::LegacyVectorReservationAfter => 19,
            MigrationFailpoint::LegacyDefinitionEnqueueBefore => 20,
            MigrationFailpoint::LegacyDefinitionEnqueueAfter => 21,
            MigrationFailpoint::LegacyVectorValidationCheckpointBefore => 22,
            MigrationFailpoint::LegacyVectorValidationCheckpointAfter => 23,
            MigrationFailpoint::LegacyVectorMetadataPublicationBefore => 24,
            MigrationFailpoint::LegacyVectorMetadataPublicationAfter => 25,
            MigrationFailpoint::LegacyVectorReservationTransitionBefore => 26,
            MigrationFailpoint::LegacyVectorReservationTransitionAfter => 27,
            MigrationFailpoint::LegacyDefinitionRetirementBefore => 28,
            MigrationFailpoint::LegacyDefinitionRetirementAfter => 29,
            MigrationFailpoint::MigrationReadyPublicationBefore => 30,
            MigrationFailpoint::MigrationReadyPublicationAfter => 31,
            MigrationFailpoint::StorageSchemaCompletionBefore => 32,
            MigrationFailpoint::StorageSchemaCompletionAfter => 33,
            MigrationFailpoint::VectorDirectoryPreflightCommitBefore => 34,
            MigrationFailpoint::VectorDirectoryPreflightCommitAfter => 35,
            MigrationFailpoint::VectorDirectoryBackfillCommitBefore => 36,
            MigrationFailpoint::VectorDirectoryBackfillCommitAfter => 37,
            MigrationFailpoint::VectorDirectoryVerificationCommitBefore => 38,
            MigrationFailpoint::VectorDirectoryVerificationCommitAfter => 39,
            MigrationFailpoint::VectorDirectoryPublicationCommitBefore => 40,
            MigrationFailpoint::VectorDirectoryPublicationCommitAfter => 41,
        }
    }

    /// All boundaries in the order in which a migration crosses them.
    pub fn all() -> (boundaries: Vec<MigrationFailpoint>)
        ensures
            boundaries@ == Self::all_boundaries(),
    {
        let boundaries: Vec<MigrationFailpoint> = vec![
            MigrationFailpoint::JobCreationBeforeCommit,
            MigrationFailpoint::JobCreationAfterCommit,
            MigrationFailpoint::AllocatorReservationBefore,
            MigrationFailpoint::AllocatorReservationAfter,
            MigrationFailpoint::BatchReadBefore,
            MigrationFailpoint::BatchReadAfter,
            MigrationFailpoint::BatchWriteBefore,
            MigrationFailpoint::BatchWriteAfter,
            MigrationFailpoint::BatchCommitBefore,
            MigrationFailpoint::BatchCommitAfter,
            MigrationFailpoint::StageTransitionBefore,
            MigrationFailpoint::StageTransitionAfter,
            MigrationFailpoint::RewriteCompletionBefore,
            MigrationFailpoint::RewriteCompletionAfter,
            MigrationFailpoint::CleanupEnqueueBefore,
            MigrationFailpoint::CleanupEnqueueAfter,
            MigrationFailpoint::CleanupDeleteBefore,
            MigrationFailpoint::CleanupDeleteAfter,
            MigrationFailpoint::LegacyVectorReservationBefore,
            MigrationFailpoint::LegacyVectorReservationAfter,
            MigrationFailpoint::LegacyDefinitionEnqueueBefore,
            MigrationFailpoint::LegacyDefinitionEnqueueAfter,
            MigrationFailpoint::LegacyVectorValidationCheckpointBefore,
            MigrationFailpoint::LegacyVectorValidationCheckpointAfter,
            MigrationFailpoint::LegacyVectorMetadataPublicationBefore,
            MigrationFailpoint::LegacyVectorMetadataPublicationAfter,
            MigrationFailpoint::LegacyVectorReservationTransitionBefore,
            MigrationFailpoint::LegacyVectorReservationTransitionAfter,
            MigrationFailpoint::LegacyDefinitionRetirementBefore,
            MigrationFailpoint::LegacyDefinitionRetirementAfter,
            MigrationFailpoint::MigrationReadyPublicationBefore,
            MigrationFailpoint::MigrationReadyPublicationAfter,
            MigrationFailpoint::StorageSchemaCompletionBefore,
            MigrationFailpoint::StorageSchemaCompletionAfter,
            MigrationFailpoint::VectorDirectoryPreflightCommitBefore,
            MigrationFailpoint::VectorDirectoryPreflightCommitAfter,
            MigrationFailpoint::VectorDirectoryBackfillCommitBefore,
            MigrationFailpoint::VectorDirectoryBackfillCommitAfter,
            MigrationFailpoint::VectorDirectoryVerificationCommitBefore,
            MigrationFailpoint::VectorDirectoryVerificationCommitAfter,
            MigrationFailpoint::VectorDirectoryPublicationCommitBefore,
            MigrationFailpoint::VectorDirectoryPublicationCommitAfter,
        ];
        assert(boundaries@ =~= Self::all_boundaries());
        boundaries
    }

    /// Stable name of the boundary.
    pub fn as_str(self) -> (name: &'static str)
        ensures
            name@ == self.name(),
    {
        match self {
            MigrationFailpoint::JobCreationBeforeCommit => "job_creation_before_commit",
            MigrationFailpoint::JobCreationAfterCommit => "job_creation_after_commit",
            MigrationFailpoint::AllocatorReservationBefore => "allocator_reservation_before",
            MigrationFailpoint::AllocatorReservationAfter => "allocator_reservation_after",
            MigrationFailpoint::BatchReadBefore => "batch_read_before",
            MigrationFailpoint::BatchReadAfter => "batch_read_after",
            MigrationFailpoint::BatchWriteBefore => "batch_write_before",
            MigrationFailpoint::BatchWriteAfter => "batch_write_after",
            MigrationFailpoint::BatchCommitBefore => "batch_commit_before",
            MigrationFailpoint::BatchCommitAfter => "batch_commit_after",
            MigrationFailpoint::StageTransitionBefore => "stage_transition_before",
            MigrationFailpoint::StageTransitionAfter => "stage_transition_after",
            MigrationFailpoint::RewriteCompletionBefore => "rewrite_completion_before",
            MigrationFailpoint::RewriteCompletionAfter => "rewrite_completion_after",
            MigrationFailpoint::CleanupEnqueueBefore => "cleanup_enqueue_before",
            MigrationFailpoint::CleanupEnqueueAfter => "cleanup_enqueue_after",
            MigrationFailpoint::CleanupDeleteBefore => "cleanup_delete_before",
            MigrationFailpoint::CleanupDeleteAfter => "cleanup_delete_after",
            MigrationFailpoint::LegacyVectorReservationBefore => "legacy_vector_reservation_before",
            MigrationFailpoint::LegacyVectorReservationAfter => "legacy_vector_reservation_after",
            MigrationFailpoint::LegacyDefinitionEnqueueBefore => "legacy_definition_enqueue_before",
            MigrationFailpoint::LegacyDefinitionEnqueueAfter => "legacy_definition_enqueue_after",
            MigrationFailpoint::LegacyVectorValidationCheckpointBefore =>
                "legacy_vector_validation_checkpoint_before",
            MigrationFailpoint::LegacyVectorValidationCheckpointAfter =>
                "legacy_vector_validation_checkpoint_after",
            MigrationFailpoint::LegacyVectorMetadataPublicationBefore =>
                "legacy_vector_metadata_publication_before",
            MigrationFailpoint::LegacyVectorMetadataPublicationAfter =>
                "legacy_vector_metadata_publication_after",
            MigrationFailpoint::LegacyVectorReservationTransitionBefore =>
                "legacy_vector_reservation_transition_before",
            MigrationFailpoint::LegacyVectorReservationTransitionAfter =>
                "legacy_vector_reservation_transition_after",
            MigrationFailpoint::LegacyDefinitionRetirementBefore =>
                "legacy_definition_retirement_before",
            MigrationFailpoint::LegacyDefinitionRetirementAfter =>
                "legacy_definition_retirement_after",
            MigrationFailpoint::MigrationReadyPublicationBefore =>
                "migration_ready_publication_before",
            MigrationFailpoint::MigrationReadyPublicationAfter =>
                "migration_ready_publication_after",
            MigrationFailpoint::StorageSchemaCompletionBefore => "storage_schema_completion_before",
            MigrationFailpoint::StorageSchemaCompletionAfter => "storage_schema_completion_after",
            MigrationFailpoint::VectorDirectoryPreflightCommitBefore =>
                "vector_directory_preflight_commit_before",
            MigrationFailpoint::VectorDirectoryPreflightCommitAfter =>
                "vector_directory_preflight_commit_after",
            MigrationFailpoint::VectorDirectoryBackfillCommitBefore =>
                "vector_directory_backfill_commit_before",
            MigrationFailpoint::VectorDirectoryBackfillCommitAfter =>
                "vector_directory_backfill_commit_after",
            MigrationFailpoint::VectorDirectoryVerificationCommitBefore =>
                "vector_directory_verification_commit_before",
            MigrationFailpoint::VectorDirectoryVerificationCommitAfter =>
                "vector_directory_verification_commit_after",
            MigrationFailpoint::VectorDirectoryPublicationCommitBefore =>
                "vector_directory_publication_commit_before",
            MigrationFailpoint::VectorDirectoryPublicationCommitAfter =>
                "vector_directory_publication_commit_after",
        }
    }

    /// The boundary that has a name.
    pub fn parse(value: &str) -> (failpoint: Option<MigrationFailpoint>)
        ensures
            match failpoint {
                Some(failpoint) => failpoint.name() == value@,
                None => forall|failpoint: MigrationFailpoint| #[trigger]
                    failpoint.name() != value@,
            },
    {
        let wanted = value.to_owned();
        let boundaries = Self::all();
        let mut position: usize = 0;
        while position < boundaries.len()
            invariant
                position <= boundaries.len(),
                boundaries@ == Self::all_boundaries(),
                wanted@ == value@,
                forall|i: int| 0 <= i < position ==> (#[trigger] boundaries@[i]).name() != value@,
            decreases boundaries.len() - position,
        {
            let failpoint = boundaries[position];
            if failpoint.as_str().to_owned() == wanted {
                return Some(failpoint);
            }
            position = position + 1;
        }
        assert forall|failpoint: MigrationFailpoint| #[trigger] failpoint.name() != value@ by {
            lemma_every_boundary_is_listed(failpoint);
            assert(boundaries@[failpoint.position()].name() != value@);
        }
        None
    }
}

proof fn lemma_every_boundary_is_listed(failpoint: MigrationFailpoint)
    ensures
        0 <= failpoint.position() < MigrationFailpoint::all_boundaries().len(),
        MigrationFailpoint::all_boundaries()[failpoint.position()] == failpoint,
{
}

/// The boundary that a name can only belong to, judged by its length and a few letters.
spec fn boundary_by_shape(name: Seq<char>) -> Option<MigrationFailpoint> {
    if name.len() == 16 {
        Some(MigrationFailpoint::BatchReadAfter)
    } else if name.len() == 17 && name[6] == 'r' {
        Some(MigrationFailpoint::BatchReadBefore)
    } else if name.len() == 17 && name[6] == 'w' {
        Some(MigrationFailpoint::BatchWriteAfter)
    } else if name.len() == 18 && name[6] == 'w' {
        Some(MigrationFailpoint::BatchWriteBefore)
    } else if name.len() == 18 && name[6] == 'c' {
        Some(MigrationFailpoint::BatchCommitAfter)
    } else if name.len() == 19 {
        Some(MigrationFailpoint::BatchCommitBefore)
    } else if name.len() == 20 {
        Some(MigrationFailpoint::CleanupDeleteAfter)
    } else if name.len() == 21 && name[8] == 'e' {
        Some(MigrationFailpoint::CleanupEnqueueAfter)
    } else if name.len() == 21 && name[8] == 'd' {
        Some(MigrationFailpoint::CleanupDeleteBefore)
    } else if name.len() == 22 && name[0] == 's' {
        Some(MigrationFailpoint::StageTransitionAfter)
    } else if name.len() == 22 && name[0] == 'c' {
        Some(MigrationFailpoint::CleanupEnqueueBefore)
    } else if name.len() == 23 {
        Some(MigrationFailpoint::StageTransitionBefore)
    } else if name.len() == 24 {
        Some(MigrationFailpoint::RewriteCompletionAfter)
    } else if name.len() == 25 && name[0] == 'j' {
        Some(MigrationFailpoint::JobCreationAfterCommit)
    } else if name.len() == 25 && name[0] == 'r' {
        Some(MigrationFailpoint::RewriteCompletionBefore)
    } else if name.len() == 26 {
        Some(MigrationFailpoint::JobCreationBeforeCommit)
    } else if name.len() == 27 {
        Some(MigrationFailpoint::AllocatorReservationAfter)
    } else if name.len() == 28 {
        Some(MigrationFailpoint::AllocatorReservationBefore)
    } else if name.len() == 31 && name[7] == 'v' {
        Some(MigrationFailpoint::LegacyVectorReservationAfter)
    } else if name.len() == 31 && name[7] == 'd' {
        Some(MigrationFailpoint::LegacyDefinitionEnqueueAfter)
    } else if name.len() == 31 && name[7] == '_' {
        Some(MigrationFailpoint::StorageSchemaCompletionAfter)
    } else if name.len() == 32 && name[7] == 'v' {
        Some(MigrationFailpoint::LegacyVectorReservationBefore)
    } else if name.len() == 32 && name[7] == 'd' {
        Some(MigrationFailpoint::LegacyDefinitionEnqueueBefore)
    } else if name.len() == 32 && name[7] == '_' {
        Some(MigrationFailpoint::StorageSchemaCompletionBefore)
    } else if name.len() == 33 {
        Some(MigrationFailpoint::MigrationReadyPublicationAfter)
    } else if name.len() == 34 && name[0] == 'l' {
        Some(MigrationFailpoint::LegacyDefinitionRetirementAfter)
    } else if name.len() == 34 && name[0] == 'm' {
        Some(MigrationFailpoint::MigrationReadyPublicationBefore)
    } else if name.len() == 35 {
        Some(MigrationFailpoint::LegacyDefinitionRetirementBefore)
    } else if name.len() == 38 {
        Some(MigrationFailpoint::VectorDirectoryBackfillCommitAfter)
    } else if name.len() == 39 && name[17] == 'p' {
        Some(MigrationFailpoint::VectorDirectoryPreflightCommitAfter)
    } else if name.len() == 39 && name[17] == 'b' {
        Some(MigrationFailpoint::VectorDirectoryBackfillCommitBefore)
    } else if name.len() == 40 && name[0] == 'l' {
        Some(MigrationFailpoint::LegacyVectorMetadataPublicationAfter)
    } else if name.len() == 40 && name[0] == 'v' {
        Some(MigrationFailpoint::VectorDirectoryPreflightCommitBefore)
    } else if name.len() == 41 && name[14] == 'v' {
        Some(MigrationFailpoint::LegacyVectorValidationCheckpointAfter)
    } else if name.len() == 41 && name[14] == 'm' {
        Some(MigrationFailpoint::LegacyVectorMetadataPublicationBefore)
    } else if name.len() == 41 && name[14] == 'r' {
        Some(MigrationFailpoint::VectorDirectoryPublicationCommitAfter)
    } else if name.len() == 42 && name[17] == 'i' {
        Some(MigrationFailpoint::LegacyVectorValidationCheckpointBefore)
    } else if name.len() == 42 && name[17] == 'e' {
        Some(MigrationFailpoint::LegacyVectorReservationTransitionAfter)
    } else if name.len() == 42 && name[17] == 'v' {
        Some(MigrationFailpoint::VectorDirectoryVerificationCommitAfter)
    } else if name.len() == 42 && name[17] == 'p' {
        Some(MigrationFailpoint::VectorDirectoryPublicationCommitBefore)
    } else if name.len() == 43 && name[0] == 'l' {
        Some(MigrationFailpoint::LegacyVectorReservationTransitionBefore)
    } else if name.len() == 43 && name[0] == 'v' {
        Some(MigrationFailpoint::VectorDirectoryVerificationCommitBefore)
    } else {
        None
    }
}

proof fn lemma_shape_of_name(failpoint: MigrationFailpoint)
    ensures
        boundary_by_shape(failpoint.name()) == Some(failpoint),
{
    reveal_strlit("job_creation_before_commit");
    reveal_strlit("job_creation_after_commit");
    reveal_strlit("allocator_reservation_before");
    reveal_strlit("allocator_reservation_after");
    reveal_strlit("batch_read_before");
    reveal_strlit("batch_read_after");
    reveal_strlit("batch_write_before");
    reveal_strlit("batch_write_after");
    reveal_strlit("batch_commit_before");
    reveal_strlit("batch_commit_after");
    reveal_strlit("stage_transition_before");
    reveal_strlit("stage_transition_after");
    reveal_strlit("rewrite_completion_before");
    reveal_strlit("rewrite_completion_after");
    reveal_strlit("cleanup_enqueue_before");
    reveal_strlit("cleanup_enqueue_after");
    reveal_strlit("cleanup_delete_before");
    reveal_strlit("cleanup_delete_after");
    reveal_strlit("legacy_vector_reservation_before");
    reveal_strlit("legacy_vector_reservation_after");
    reveal_strlit("legacy_definition_enqueue_before");
    reveal_strlit("legacy_definition_enqueue_after");
    reveal_strlit("legacy_vector_validation_checkpoint_before");
    reveal_strlit("legacy_vector_validation_checkpoint_after");
    reveal_strlit("legacy_vector_metadata_publication_before");
    reveal_strlit("legacy_vector_metadata_publication_after");
    reveal_strlit("legacy_vector_reservation_transition_before");
    reveal_strlit("legacy_vector_reservation_transition_after");
    reveal_strlit("legacy_definition_retirement_before");
    reveal_strlit("legacy_definition_retirement_after");
    reveal_strlit("migration_ready_publication_before");
    reveal_strlit("migration_ready_publication_after");
    reveal_strlit("storage_schema_completion_before");
    reveal_strlit("storage_schema_completion_after");
    reveal_strlit("vector_directory_preflight_commit_before");
    reveal_strlit("vector_directory_preflight_commit_after");
    reveal_strlit("vector_directory_backfill_commit_before");
    reveal_strlit("vector_directory_backfill_commit_after");
    reveal_strlit("vector_directory_verification_commit_before");
    reveal_strlit("vector_directory_verification_commit_after");
    reveal_strlit("vector_directory_publication_commit_before");
    reveal_strlit("vector_directory_publication_commit_after");
}

/// No two boundaries share a name, so reading a name back gives the boundary that
/// wrote it.
pub proof fn law_names_identify_boundaries(left: MigrationFailpoint, right: MigrationFailpoint)
    ensures
        left.name() == right.name() <==> left == right,
{
    lemma_shape_of_name(left);
    lemma_shape_of_name(right);
}

proof fn lemma_names_are_words(failpoint: MigrationFailpoint)
    ensures
        crate::json::is_word(failpoint.name()),
{
    reveal_strlit("job_creation_before_commit");
    reveal_strlit("job_creation_after_commit");
    reveal_strlit("allocator_reservation_before");
    reveal_strlit("allocator_reservation_after");
    reveal_strlit("batch_read_before");
    reveal_strlit("batch_read_after");
    reveal_strlit("batch_write_before");
    reveal_strlit("batch_write_after");
    reveal_strlit("batch_commit_before");
    reveal_strlit("batch_commit_after");
    reveal_strlit("stage_transition_before");
    reveal_strlit("stage_transition_after");
    reveal_strlit("rewrite_completion_before");
    reveal_strlit("rewrite_completion_after");
    reveal_strlit("cleanup_enqueue_before");
    reveal_strlit("cleanup_enqueue_after");
    reveal_strlit("cleanup_delete_before");
    reveal_strlit("cleanup_delete_after");
    reveal_strlit("legacy_vector_reservation_before");
    reveal_strlit("legacy_vector_reservation_after");
    reveal_strlit("legacy_definition_enqueue_before");
    reveal_strlit("legacy_definition_enqueue_after");
    reveal_strlit("legacy_vector_validation_checkpoint_before");
    reveal_strlit("legacy_vector_validation_checkpoint_after");
    reveal_strlit("legacy_vector_metadata_publication_before");
    reveal_strlit("legacy_vector_metadata_publication_after");
    reveal_strlit("legacy_vector_reservation_transition_before");
    reveal_strlit("legacy_vector_reservation_transition_after");
    reveal_strlit("legacy_definition_retirement_before");
    reveal_strlit("legacy_definition_retirement_after");
    reveal_strlit("migration_ready_publication_before");
    reveal_strlit("migration_ready_publication_after");
    reveal_strlit("storage_schema_completion_before");
    reveal_strlit("storage_schema_completion_after");
    reveal_strlit("vector_directory_preflight_commit_before");
    reveal_strlit("vector_directory_preflight_commit_after");
    reveal_strlit("vector_directory_backfill_commit_before");
    reveal_strlit("vector_directory_backfill_commit_after");
    reveal_strlit("vector_directory_verification_commit_before");
    reveal_strlit("vector_directory_verification_commit_after");
    reveal_strlit("vector_directory_publication_commit_before");
    reveal_strlit("vector_directory_publication_commit_after");
}

/// Whether a boundary is what JSON text stands for.
pub open spec fn is_json_of(failpoint: MigrationFailpoint, bytes: Seq<u8>) -> bool {
    crate::json::parsed_json(bytes) matches Ok(JsonTree::Text(name)) && name == failpoint.name()
}

impl MigrationFailpoint {
    /// The JSON form of the boundary: its name between double quotes.
    pub fn to_json(self) -> (bytes: Result<Vec<u8>, String>)
        ensures
            bytes matches Ok(bytes) && {
                &&& bytes@ == vstd::utf8::encode_utf8(crate::json::in_quotes(self.name()))
                &&& is_json_of(self, bytes@)
            },
    {
        proof {
            lemma_names_are_words(self);
        }
        json_write(&json_text(self.as_str().to_owned()))
    }

    /// The boundary that JSON text stands for.
    pub fn from_json(bytes: &[u8]) -> (failpoint: Option<MigrationFailpoint>)
        ensures
            match failpoint {
                Some(failpoint) => is_json_of(failpoint, bytes@),
                None => forall|failpoint: MigrationFailpoint| !#[trigger] is_json_of(
                    failpoint,
                    bytes@,
                ),
            },
    {
        let json = match json_parse(bytes) {
            Ok(json) => json,
            Err(_) => {
                return None;
            },
        };
        match json_split(json) {
            JsonNode::Text(name) => {
                let failpoint = Self::parse(name.as_str());
                assert forall|other: MigrationFailpoint| failpoint is None implies !#[trigger] is_json_of(
                    other,
                    bytes@,
                ) by {
                    assert(other.name() != name@);
                }
                failpoint
            },
            _ => None,
        }
    }
}

/// One-shot failure armed for a boundary, and whether the last armed one fired.
#[derive(Debug)]
pub struct MigrationFailpoints {
    injected: Option<MigrationFailpoint>,
    triggered: bool,
}

/// What the process environment asks of the boundaries.
#[derive(Debug)]
pub struct FailpointEnvironment {
    /// Name of the boundary at which to fail, if any.
    pub failpoint: Option<String>,
    /// What failing means there; `abort` ends the process at once.
    pub action: Option<String>,
}

impl FailpointEnvironment {
    /// Whether the environment names a boundary.
    pub open spec fn names(self, failpoint: MigrationFailpoint) -> bool {
        self.failpoint matches Some(name) && name@ == failpoint.name()
    }

    /// Whether failing means to end the process at once.
    pub open spec fn aborts(self) -> bool {
        self.action matches Some(action) && action@ == "abort"@
    }
}

/// What crossing a boundary leads to.
#[derive(Debug, PartialEq, Eq)]
pub enum FailpointOutcome {
    /// Go on.
    Pass,
    /// Stop with this failure.
    Fail(HelixDbError),
    /// End the process at once.
    Abort,
}

impl FailpointOutcome {
    /// Whether this is the failure injected at a boundary.
    pub open spec fn is_injected_at(self, failpoint: MigrationFailpoint) -> bool {
        self matches FailpointOutcome::Fail(error) && error.is_config(
            "injected migration failpoint "@ + failpoint.name(),
        )
    }
}

impl MigrationFailpoints {
    /// The boundary that is armed.
    pub closed spec fn armed(self) -> Option<MigrationFailpoint> {
        self.injected
    }

    /// Whether the last armed boundary fired.
    pub closed spec fn fired(self) -> bool {
        self.triggered
    }

    /// Nothing armed, nothing fired.
    pub fn new() -> (failpoints: Self)
        ensures
            failpoints.armed() is None,
            !failpoints.fired(),
    {
        MigrationFailpoints { injected: None, triggered: false }
    }
}

/// Arms one failure for a boundary, in place of whatever was armed.
pub fn inject_migration_failpoint_once(
    failpoints: &mut MigrationFailpoints,
    failpoint: MigrationFailpoint,
) -> (armed: Result<(), HelixDbError>)
    ensures
        armed is Ok,
        final(failpoints).armed() == Some(failpoint),
        !final(failpoints).fired(),
{
    failpoints.injected = Some(failpoint);
    failpoints.triggered = false;
    Ok(())
}

/// Whether the boundary that was armed last has fired.
pub fn migration_failpoint_was_triggered(failpoints: &MigrationFailpoints) -> (fired: bool)
    ensures
        fired == failpoints.fired(),
{
    failpoints.triggered
}

fn injected_failure(failpoint: MigrationFailpoint) -> (outcome: FailpointOutcome)
    ensures
        outcome.is_injected_at(failpoint),
{
    FailpointOutcome::Fail(
        HelixDbError::Config(joined("injected migration failpoint ", failpoint.as_str())),
    )
}

/// Crosses a boundary: an armed failure fires there once, and the environment may
/// ask for one each time.
pub fn trip_migration_failpoint(
    failpoints: &mut MigrationFailpoints,
    failpoint: MigrationFailpoint,
    environment: &FailpointEnvironment,
) -> (outcome: FailpointOutcome)
    ensures
        if old(failpoints).armed() == Some(failpoint) {
            &&& outcome.is_injected_at(failpoint)
            &&& final(failpoints).armed() is None
            &&& final(failpoints).fired()
        } else {
            &&& *final(failpoints) == *old(failpoints)
            &&& if !environment.names(failpoint) {
                outcome is Pass
            } else if environment.aborts() {
                outcome is Abort
            } else {
                outcome.is_injected_at(failpoint)
            }
        },
{
    let armed = match failpoints.injected {
        Some(injected) => injected == failpoint,
        None => false,
    };
    if armed {
        failpoints.injected = None;
        failpoints.triggered = true;
        return injected_failure(failpoint);
    }
    let named = match &environment.failpoint {
        Some(name) => *name == failpoint.as_str().to_owned(),
        None => false,
    };
    let aborts = match &environment.action {
        Some(action) => *action == "abort".to_owned(),
        None => false,
    };
    if !named {
        FailpointOutcome::Pass
    } else if aborts {
        FailpointOutcome::Abort
    } else {
        injected_failure(failpoint)
    }
}

/// Boundaries stand under frozen names.
pub proof fn law_boundary_names_are_frozen()
    ensures
        MigrationFailpoint::JobCreationBeforeCommit.name() == "job_creation_before_commit"@,
        MigrationFailpoint::JobCreationAfterCommit.name() == "job_creation_after_commit"@,
        MigrationFailpoint::AllocatorReservationBefore.name() == "allocator_reservation_before"@,
        MigrationFailpoint::AllocatorReservationAfter.name() == "allocator_reservation_after"@,
        MigrationFailpoint::BatchReadBefore.name() == "batch_read_before"@,
        MigrationFailpoint::BatchReadAfter.name() == "batch_read_after"@,
        MigrationFailpoint::BatchWriteBefore.name() == "batch_write_before"@,
        MigrationFailpoint::BatchWriteAfter.name() == "batch_write_after"@,
        MigrationFailpoint::BatchCommitBefore.name() == "batch_commit_before"@,
        MigrationFailpoint::BatchCommitAfter.name() == "batch_commit_after"@,
        MigrationFailpoint::StageTransitionBefore.name() == "stage_transition_before"@,
        MigrationFailpoint::StageTransitionAfter.name() == "stage_transition_after"@,
        MigrationFailpoint::RewriteCompletionBefore.name() == "rewrite_completion_before"@,
        MigrationFailpoint::RewriteCompletionAfter.name() == "rewrite_completion_after"@,
        MigrationFailpoint::CleanupEnqueueBefore.name() == "cleanup_enqueue_before"@,
        MigrationFailpoint::CleanupEnqueueAfter.name() == "cleanup_enqueue_after"@,
        MigrationFailpoint::CleanupDeleteBefore.name() == "cleanup_delete_before"@,
        MigrationFailpoint::CleanupDeleteAfter.name() == "cleanup_delete_after"@,
        MigrationFailpoint::LegacyVectorReservationBefore.name() == "legacy_vector_reservation_before"@,
        MigrationFailpoint::LegacyVectorReservationAfter.name() == "legacy_vector_reservation_after"@,
        MigrationFailpoint::LegacyDefinitionEnqueueBefore.name() == "legacy_definition_enqueue_before"@,
        MigrationFailpoint::LegacyDefinitionEnqueueAfter.name() == "legacy_definition_enqueue_after"@,
        MigrationFailpoint::LegacyVectorValidationCheckpointBefore.name() == "legacy_vector_validation_checkpoint_before"@,
        MigrationFailpoint::LegacyVectorValidationCheckpointAfter.name() == "legacy_vector_validation_checkpoint_after"@,
        MigrationFailpoint::LegacyVectorMetadataPublicationBefore.name() == "legacy_vector_metadata_publication_before"@,
        MigrationFailpoint::LegacyVectorMetadataPublicationAfter.name() == "legacy_vector_metadata_publication_after"@,
        MigrationFailpoint::LegacyVectorReservationTransitionBefore.name() == "legacy_vector_reservation_transition_before"@,
        MigrationFailpoint::LegacyVectorReservationTransitionAfter.name() == "legacy_vector_reservation_transition_after"@,
        MigrationFailpoint::LegacyDefinitionRetirementBefore.name() == "legacy_definition_retirement_before"@,
        MigrationFailpoint::LegacyDefinitionRetirementAfter.name() == "legacy_definition_retirement_after"@,
        MigrationFailpoint::MigrationReadyPublicationBefore.name() == "migration_ready_publication_before"@,
        MigrationFailpoint::MigrationReadyPublicationAfter.name() == "migration_ready_publication_after"@,
        MigrationFailpoint::StorageSchemaCompletionBefore.name() == "storage_schema_completion_before"@,
        MigrationFailpoint::StorageSchemaCompletionAfter.name() == "storage_schema_completion_after"@,
        MigrationFailpoint::VectorDirectoryPreflightCommitBefore.name() == "vector_directory_preflight_commit_before"@,
        MigrationFailpoint::VectorDirectoryPreflightCommitAfter.name() == "vector_directory_preflight_commit_after"@,
        MigrationFailpoint::VectorDirectoryBackfillCommitBefore.name() == "vector_directory_backfill_commit_before"@,
        MigrationFailpoint::VectorDirectoryBackfillCommitAfter.name() == "vector_directory_backfill_commit_after"@,
        MigrationFailpoint::VectorDirectoryVerificationCommitBefore.name() == "vector_directory_verification_commit_before"@,
        MigrationFailpoint::VectorDirectoryVerificationCommitAfter.name() == "vector_directory_verification_commit_after"@,
        MigrationFailpoint::VectorDirectoryPublicationCommitBefore.name() == "vector_directory_publication_commit_before"@,
        MigrationFailpoint::VectorDirectoryPublicationCommitAfter.name() == "vector_directory_publication_commit_after"@,
{
}

/// Every boundary is listed once, in the order in which a migration crosses them: jobs are
/// created and identities reserved before batches run, batches before stages end, and
/// publication, completion and the vector directory come last.
pub proof fn law_boundaries_are_listed_in_order(failpoint: MigrationFailpoint)
    ensures
        MigrationFailpoint::all_boundaries().len() == 42,
        0 <= failpoint.position() < 42,
        MigrationFailpoint::all_boundaries()[failpoint.position()] == failpoint,
        MigrationFailpoint::JobCreationBeforeCommit.position()
            < MigrationFailpoint::JobCreationAfterCommit.position()
            < MigrationFailpoint::AllocatorReservationBefore.position()
            < MigrationFailpoint::AllocatorReservationAfter.position()
            < MigrationFailpoint::BatchReadBefore.position()
            < MigrationFailpoint::BatchReadAfter.position()
            < MigrationFailpoint::BatchWriteBefore.position()
            < MigrationFailpoint::BatchWriteAfter.position()
            < MigrationFailpoint::BatchCommitBefore.position()
            < MigrationFailpoint::BatchCommitAfter.position()
            < MigrationFailpoint::StageTransitionBefore.position()
            < MigrationFailpoint::StageTransitionAfter.position()
            < MigrationFailpoint::RewriteCompletionBefore.position()
            < MigrationFailpoint::RewriteCompletionAfter.position()
            < MigrationFailpoint::CleanupEnqueueBefore.position()
            < MigrationFailpoint::CleanupEnqueueAfter.position()
            < MigrationFailpoint::CleanupDeleteBefore.position()
            < MigrationFailpoint::CleanupDeleteAfter.position()
            < MigrationFailpoint::LegacyVectorReservationBefore.position()
            < MigrationFailpoint::LegacyVectorReservationAfter.position()
            < MigrationFailpoint::LegacyDefinitionEnqueueBefore.position()
            < MigrationFailpoint::LegacyDefinitionEnqueueAfter.position()
            < MigrationFailpoint::LegacyVectorValidationCheckpointBefore.position()
            < MigrationFailpoint::LegacyVectorValidationCheckpointAfter.position()
            < MigrationFailpoint::LegacyVectorMetadataPublicationBefore.position()
            < MigrationFailpoint::LegacyVectorMetadataPublicationAfter.position()
            < MigrationFailpoint::LegacyVectorReservationTransitionBefore.position()
            < MigrationFailpoint::LegacyVectorReservationTransitionAfter.position()
            < MigrationFailpoint::LegacyDefinitionRetirementBefore.position()
            < MigrationFailpoint::LegacyDefinitionRetirementAfter.position()
            < MigrationFailpoint::MigrationReadyPublicationBefore.position()
            < MigrationFailpoint::MigrationReadyPublicationAfter.position()
            < MigrationFailpoint::StorageSchemaCompletionBefore.position()
            < MigrationFailpoint::StorageSchemaCompletionAfter.position()
            < MigrationFailpoint::VectorDirectoryPreflightCommitBefore.position()
            < MigrationFailpoint::VectorDirectoryPreflightCommitAfter.position()
            < MigrationFailpoint::VectorDirectoryBackfillCommitBefore.position()
            < MigrationFailpoint::VectorDirectoryBackfillCommitAfter.position()
            < MigrationFailpoint::VectorDirectoryVerificationCommitBefore.position()
            < MigrationFailpoint::VectorDirectoryVerificationCommitAfter.position()
            < MigrationFailpoint::VectorDirectoryPublicationCommitBefore.position()
            < MigrationFailpoint::VectorDirectoryPublicationCommitAfter.position(),
{
}

/// The environment asks for a failure at the boundary that it names, at no other, and for an
/// abort exactly where its action says so.
pub proof fn law_environments_name_one_boundary(
    environment: FailpointEnvironment,
    left: MigrationFailpoint,
    right: MigrationFailpoint,
)
    ensures
        environment.names(left) && environment.names(right) ==> left == right,
        environment.failpoint is None ==> !environment.names(left),
        environment.failpoint matches Some(name) ==> (environment.names(left) <==> name@
            == left.name()),
        environment.aborts() <==> (environment.action matches Some(action) && action@ == "abort"@),
{
    law_names_identify_boundaries(left, right);
}

/// An injected failure names its boundary, and no other boundary could have injected it.
pub proof fn law_injected_failures_name_their_boundary(
    outcome: FailpointOutcome,
    left: MigrationFailpoint,
    right: MigrationFailpoint,
)
    ensures
        outcome.is_injected_at(left) <==> (outcome matches FailpointOutcome::Fail(
            HelixDbError::Config(text),
        ) && text@ == "injected migration failpoint "@ + left.name()),
        outcome.is_injected_at(left) && outcome.is_injected_at(right) ==> left == right,
{
    law_names_identify_boundaries(left, right);
    if outcome.is_injected_at(left) && outcome.is_injected_at(right) {
        let start = "injected migration failpoint "@;
        assert((start + left.name()).skip(start.len() as int) =~= left.name());
        assert((start + right.name()).skip(start.len() as int) =~= right.name());
    }
}

/// JSON text stands for a boundary exactly where it is the name of it, and for one at most.
pub proof fn law_json_stands_for_one_boundary(
    left: MigrationFailpoint,
    right: MigrationFailpoint,
    bytes: Seq<u8>,
)
    ensures
        is_json_of(left, bytes) <==> crate::json::parsed_json(bytes) == Ok::<JsonTree, Seq<char>>(
            JsonTree::Text(left.name()),
        ),
        is_json_of(left, bytes) && is_json_of(right, bytes) ==> left == right,
{
    law_names_identify_boundaries(left, right);
}

} // verus!
