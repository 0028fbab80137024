//! What an interrupted vector migration leaves behind.
use vstd::prelude::*;

use super::controller::{MigrationBatch, MigrationStep, TurnEnd};
use super::definitions::IndexElementKind;
use super::failpoints::{
    FailpointEnvironment, FailpointOutcome, MigrationFailpoint, MigrationFailpoints,
};
use super::job::{
    JobState, MigrationId, MigrationJob, MigrationJobState, MigrationResumeKey, MigrationStage,
};

verus! {

/// Closed set of vector migration stages that own generic batch work.
#[derive(Debug, Clone, Copy, PartialEq, Eq, Structural)]
pub enum VectorRecoveryStage {
    MaterializeNodes,
    MaterializeEdges,
    FenceLegacySources,
    RetireHotRows,
    RetireLayerZeroRows,
    RetireCoreRows,
    RetireDefinitions,
    ReleaseReservations,
}

impl VectorRecoveryStage {
    /// The migration that the stage belongs to.
    pub open spec fn id_spec(self) -> MigrationId {
        if self is MaterializeNodes || self is MaterializeEdges {
            MigrationId::LegacyVectorPropertyMaterialization
        } else {
            MigrationId::LegacyVectorPhysicalCleanup
        }
    }

    /// Position of the stage in its migration.
    pub open spec fn rank(self) -> int {
        match self {
            VectorRecoveryStage::MaterializeNodes => 0,
            VectorRecoveryStage::MaterializeEdges => 1,
            VectorRecoveryStage::FenceLegacySources => 0,
            VectorRecoveryStage::RetireHotRows => 1,
            VectorRecoveryStage::RetireLayerZeroRows => 2,
            VectorRecoveryStage::RetireCoreRows => 3,
            VectorRecoveryStage::RetireDefinitions => 4,
            VectorRecoveryStage::ReleaseReservations => 5,
        }
    }

    /// The migration that the stage belongs to.
    pub fn migration_id(self) -> (id: MigrationId)
        ensures
            id == self.id_spec(),
    {
        match self {
            VectorRecoveryStage::MaterializeNodes | VectorRecoveryStage::MaterializeEdges =>
                MigrationId::LegacyVectorPropertyMaterialization,
            _ => MigrationId::LegacyVectorPhysicalCleanup,
        }
    }

    /// The job stage that it stands for.
    pub fn migration_stage(self) -> (stage: MigrationStage)
        ensures
            0 <= self.rank() < self.id_spec().stages().len(),
            stage == self.id_spec().stages()[self.rank()],
    {
        match self {
            VectorRecoveryStage::MaterializeNodes => MigrationStage::NodeProperties,
            VectorRecoveryStage::MaterializeEdges => MigrationStage::EdgeEndpoints,
            VectorRecoveryStage::FenceLegacySources => MigrationStage::FenceLegacyVectorSources,
            VectorRecoveryStage::RetireHotRows => MigrationStage::LegacyVectorHotRows,
            VectorRecoveryStage::RetireLayerZeroRows => MigrationStage::LegacyVectorLayer0Rows,
            VectorRecoveryStage::RetireCoreRows => MigrationStage::LegacyVectorCoreRows,
            VectorRecoveryStage::RetireDefinitions => MigrationStage::LegacyVectorDefinitions,
            VectorRecoveryStage::ReleaseReservations =>
                MigrationStage::ReleaseLegacyVectorReservations,
        }
    }

    /// Name of the stage in diagnostics.
    pub fn name(self) -> (name: &'static str)
        ensures
            name@ == match self {
                VectorRecoveryStage::MaterializeNodes => "materialize-nodes"@,
                VectorRecoveryStage::MaterializeEdges => "materialize-edges"@,
                VectorRecoveryStage::FenceLegacySources => "fence-legacy-sources"@,
                VectorRecoveryStage::RetireHotRows => "retire-hot-rows"@,
                VectorRecoveryStage::RetireLayerZeroRows => "retire-layer-zero-rows"@,
                VectorRecoveryStage::RetireCoreRows => "retire-core-rows"@,
                VectorRecoveryStage::RetireDefinitions => "retire-definitions"@,
                VectorRecoveryStage::ReleaseReservations => "release-reservations"@,
            },
    {
        match self {
            VectorRecoveryStage::MaterializeNodes => "materialize-nodes",
            VectorRecoveryStage::MaterializeEdges => "materialize-edges",
            VectorRecoveryStage::FenceLegacySources => "fence-legacy-sources",
            VectorRecoveryStage::RetireHotRows => "retire-hot-rows",
            VectorRecoveryStage::RetireLayerZeroRows => "retire-layer-zero-rows",
            VectorRecoveryStage::RetireCoreRows => "retire-core-rows",
            VectorRecoveryStage::RetireDefinitions => "retire-definitions",
            VectorRecoveryStage::ReleaseReservations => "release-reservations",
        }
    }

    /// Element and label that the fixture of the stage indexes.
    pub fn definition(self) -> (target: (IndexElementKind, &'static str))
        ensures
            self is MaterializeEdges ==> target.0 is Edge && target.1@ == "RELATED"@,
            !(self is MaterializeEdges) ==> target.0 is Node && target.1@ == "Document"@,
    {
        match self {
            VectorRecoveryStage::MaterializeEdges => (IndexElementKind::Edge, "RELATED"),
            _ => (IndexElementKind::Node, "Document"),
        }
    }

    /// Position of a job stage in the migration, if it belongs to it.
    pub open spec fn rank_of(self, stage: MigrationStage) -> Option<int> {
        let order = self.id_spec().stages();
        if order.contains(stage) {
            Some(order.index_of(stage))
        } else {
            None
        }
    }

    /// Position of a job stage in the migration, if it belongs to it.
    pub fn stage_rank(self, stage: MigrationStage) -> (rank: Option<u8>)
        ensures
            match rank {
                Some(rank) => self.rank_of(stage) == Some(rank as int),
                None => self.rank_of(stage) is None,
            },
    {
        proof {
            lemma_ranks(self, stage);
        }
        match self.migration_id() {
            MigrationId::LegacyVectorPropertyMaterialization => match stage {
                MigrationStage::NodeProperties => Some(0),
                MigrationStage::EdgeEndpoints => Some(1),
                _ => None,
            },
            _ => match stage {
                MigrationStage::FenceLegacyVectorSources => Some(0),
                MigrationStage::LegacyVectorHotRows => Some(1),
                MigrationStage::LegacyVectorLayer0Rows => Some(2),
                MigrationStage::LegacyVectorCoreRows => Some(3),
                MigrationStage::LegacyVectorDefinitions => Some(4),
                MigrationStage::ReleaseLegacyVectorReservations => Some(5),
                _ => None,
            },
        }
    }
}

proof fn lemma_ranks(recovery: VectorRecoveryStage, stage: MigrationStage)
    ensures
        recovery.id_spec() is LegacyVectorPropertyMaterialization ==> recovery.rank_of(stage)
            == match stage {
            MigrationStage::NodeProperties => Some(0int),
            MigrationStage::EdgeEndpoints => Some(1int),
            _ => None,
        },
        recovery.id_spec() is LegacyVectorPhysicalCleanup ==> recovery.rank_of(stage)
            == match stage {
            MigrationStage::FenceLegacyVectorSources => Some(0int),
            MigrationStage::LegacyVectorHotRows => Some(1int),
            MigrationStage::LegacyVectorLayer0Rows => Some(2int),
            MigrationStage::LegacyVectorCoreRows => Some(3int),
            MigrationStage::LegacyVectorDefinitions => Some(4int),
            MigrationStage::ReleaseLegacyVectorReservations => Some(5int),
            _ => None,
        },
{
    let order = recovery.id_spec().stages();
    if recovery.id_spec() is LegacyVectorPropertyMaterialization {
        assert(order[0] is NodeProperties && order[1] is EdgeEndpoints);
    } else {
        assert(order[0] is FenceLegacyVectorSources && order[1] is LegacyVectorHotRows
            && order[2] is LegacyVectorLayer0Rows && order[3] is LegacyVectorCoreRows
            && order[4] is LegacyVectorDefinitions
            && order[5] is ReleaseLegacyVectorReservations);
    }
    if order.contains(stage) {
        let found = order.index_of(stage);
        assert(0 <= found < order.len() && order[found] == stage);
    }
}

/// Whether an interrupted job shows either the checkpoint it started from or a complete
/// turn, never an unrelated or partly advanced stage.
pub open spec fn is_recoverable(
    recovery: VectorRecoveryStage,
    failpoint: MigrationFailpoint,
    before: JobState,
    after: JobState,
) -> bool {
    let expected = if failpoint is StageTransitionAfter {
        recovery.rank() + 1
    } else {
        recovery.rank()
    };
    before matches JobState::Running { stage, resume_after_key, processed_rows } && {
        &&& recovery.rank_of(stage) == Some(recovery.rank())
        &&& after.rows() >= processed_rows
        &&& match after {
            JobState::Running { stage: left, resume_after_key: key, processed_rows: rows } => {
                &&& recovery.rank_of(left) == Some(expected)
                &&& rows == processed_rows ==> key == resume_after_key
            },
            JobState::Failed { stage: left, resume_after_key: key, processed_rows: rows, .. } => {
                &&& recovery.rank_of(left) == Some(expected)
                &&& rows == processed_rows ==> key == resume_after_key
            },
            JobState::Completed { .. } => failpoint is StageTransitionAfter,
        }
    }
}

pub(crate) fn same_bytes(left: &[u8], right: &[u8]) -> (same: bool)
    ensures
        same == (left@ == right@),
{
    if left.len() != right.len() {
        return false;
    }
    let mut position: usize = 0;
    while position < left.len()
        invariant
            position <= left@.len() == right@.len(),
            forall|i: int| 0 <= i < position ==> left@[i] == right@[i],
        decreases left@.len() - position,
    {
        if left[position] != right[position] {
            return false;
        }
        position = position + 1;
    }
    assert(left@ =~= right@);
    true
}

fn same_resume_point(
    left: &Option<MigrationResumeKey>,
    right: &Option<MigrationResumeKey>,
) -> (same: bool)
    ensures
        same == (super::job::resume_view(*left) == super::job::resume_view(*right)),
{
    match (left, right) {
        (Some(left), Some(right)) => same_bytes(left.as_bytes(), right.as_bytes()),
        (None, None) => true,
        _ => false,
    }
}

/// Checks what an injected failure left of a job.
pub fn recovery_checkpoint_holds(
    recovery: VectorRecoveryStage,
    failpoint: MigrationFailpoint,
    before: &MigrationJob,
    after: &MigrationJob,
) -> (holds: bool)
    ensures
        holds == (before.id == recovery.id_spec() && after.id == recovery.id_spec()
            && is_recoverable(recovery, failpoint, before.state@, after.state@)),
{
    let id = recovery.migration_id();
    if before.id != id || after.id != id {
        return false;
    }
    let (started_stage, started_key, started_rows) = match &before.state {
        MigrationJobState::Running { stage, resume_after_key, processed_rows } => (
            *stage,
            resume_after_key,
            *processed_rows,
        ),
        _ => {
            return false;
        },
    };
    let target = recovery.migration_stage();
    proof {
        lemma_ranks(recovery, started_stage);
        lemma_ranks(recovery, target);
    }
    if started_stage != target {
        return false;
    }
    let target_rank: u8 = match recovery.stage_rank(target) {
        Some(rank) => rank,
        None => {
            return false;
        },
    };
    let moved = match failpoint {
        MigrationFailpoint::StageTransitionAfter => true,
        _ => false,
    };
    let expected: u8 = if moved {
        target_rank.saturating_add(1)
    } else {
        target_rank
    };
    match &after.state {
        MigrationJobState::Running { stage, resume_after_key, processed_rows }
        | MigrationJobState::Failed { stage, resume_after_key, processed_rows, .. } => {
            let reached = match recovery.stage_rank(*stage) {
                Some(rank) => rank == expected,
                None => false,
            };
            reached && *processed_rows >= started_rows && (*processed_rows != started_rows
                || same_resume_point(resume_after_key, started_key))
        },
        MigrationJobState::Completed { processed_rows } => moved && *processed_rows
            >= started_rows,
    }
}

/// The durable state that a turn leaves which starts from `state` and is interrupted
/// at a boundary.
///
/// A failure inside the batch or at the end of a stage is recorded on the job; one
/// between batch and commit rolls everything back; one behind the commit changes
/// nothing.
pub open spec fn interrupted(
    state: JobState,
    id: MigrationId,
    batch: MigrationBatch,
    failpoint: MigrationFailpoint,
    error: Seq<char>,
) -> JobState {
    match failpoint {
        MigrationFailpoint::StageTransitionAfter => state.stage_finished(id).failed(error),
        MigrationFailpoint::BatchCommitBefore => state,
        MigrationFailpoint::BatchCommitAfter => batch.applied(state, id),
        _ => state.failed(error),
    }
}

/// Whether a boundary is one that every batch can be interrupted at.
pub open spec fn is_generic_boundary(failpoint: MigrationFailpoint) -> bool {
    ||| failpoint is BatchReadBefore
    ||| failpoint is BatchReadAfter
    ||| failpoint is BatchWriteBefore
    ||| failpoint is BatchWriteAfter
    ||| failpoint is BatchCommitBefore
    ||| failpoint is BatchCommitAfter
    ||| failpoint is StageTransitionBefore
    ||| failpoint is StageTransitionAfter
}

/// Whether a boundary lies inside a batch, before the job moves on.
pub open spec fn is_batch_boundary(failpoint: MigrationFailpoint) -> bool {
    ||| failpoint is BatchReadBefore
    ||| failpoint is BatchReadAfter
    ||| failpoint is BatchWriteBefore
    ||| failpoint is BatchWriteAfter
}

/// The state that is durable behind a turn, whether or not its commit was reached.
pub open spec fn durable_state(stored: JobState, end: TurnEnd, commit_reached: bool) -> JobState {
    match end {
        TurnEnd::Commit { job, .. } => if commit_reached {
            job.state@
        } else {
            stored
        },
        TurnEnd::PersistFailure { job } => job.state@,
    }
}

/// Whether a turn that is stopped at a boundary, and at no other, came to an outcome: a
/// stop inside the batch fails the turn before the job moves on, and any other turn comes
/// to what applying its batch came to.
pub open spec fn is_stopped_turn(
    failpoint: MigrationFailpoint,
    begun: MigrationJob,
    batch: MigrationBatch,
    failpoints: MigrationFailpoints,
    environment: FailpointEnvironment,
    moved: MigrationJob,
    spent: MigrationFailpoints,
    outcome: Result<MigrationStep, String>,
) -> bool {
    &&& forall|other: MigrationFailpoint| #[trigger]
        super::controller::stops_at(failpoints, environment, other) <==> other == failpoint
    &&& if is_batch_boundary(failpoint) {
        moved == begun && outcome is Err
    } else {
        exists|step: Result<MigrationStep, FailpointOutcome>| #[trigger]
            super::controller::is_batch_applied(
                begun,
                batch,
                failpoints,
                environment,
                moved,
                spent,
                step,
            ) && match step {
                Ok(done) => outcome == Ok::<MigrationStep, String>(done),
                Err(stop) => !(stop is Abort) && outcome is Err,
            }
    }
}

/// A turn that is stopped at a generic boundary leaves exactly the interrupted state
/// behind: beginning the turn, applying its batch and ending it make that state durable,
/// for a stored job that runs or that failed before. A stop before the commit leaves what
/// was stored.
pub proof fn law_stopped_turns_leave_interrupted_states(
    failpoint: MigrationFailpoint,
    stored: MigrationJob,
    begun: MigrationJob,
    batch: MigrationBatch,
    failpoints: MigrationFailpoints,
    environment: FailpointEnvironment,
    moved: MigrationJob,
    spent: MigrationFailpoints,
    outcome: Result<MigrationStep, String>,
    end: TurnEnd,
)
    requires
        is_generic_boundary(failpoint),
        failpoint is StageTransitionBefore || failpoint is StageTransitionAfter
            ==> batch is StageComplete,
        super::controller::is_begun(Some(stored), Some(begun)),
        is_stopped_turn(
            failpoint,
            begun,
            batch,
            failpoints,
            environment,
            moved,
            spent,
            outcome,
        ),
        super::controller::is_ended(moved, outcome, end),
    ensures
        ({
            let left = durable_state(stored.state@, end, failpoint is BatchCommitAfter);
            let error = match outcome {
                Ok(_) => Seq::empty(),
                Err(text) => super::job::shown_error(text@),
            };
            &&& failpoint is BatchCommitBefore ==> left == stored.state@
            &&& !(failpoint is BatchCommitBefore) || stored.state@ is Running ==> left
                == interrupted(stored.state@.retried(), stored.id, batch, failpoint, error)
        }),
{
    if !is_batch_boundary(failpoint) {
        assert(super::controller::stops_at(
            failpoints,
            environment,
            MigrationFailpoint::StageTransitionBefore,
        ) <==> failpoint is StageTransitionBefore);
        assert(super::controller::stops_at(
            failpoints,
            environment,
            MigrationFailpoint::StageTransitionAfter,
        ) <==> failpoint is StageTransitionAfter);
    }
}

/// Every generic boundary is recoverable at every vector stage: whatever batches
/// were committed before, an interrupted turn leaves the old durable checkpoint or a
/// complete turn.
///
/// `before` is the checkpoint at which the stage was entered, and `state` the durable
/// state from which the interrupted turn starts.
pub proof fn law_every_boundary_is_recoverable(
    recovery: VectorRecoveryStage,
    failpoint: MigrationFailpoint,
    before: JobState,
    state: JobState,
    batch: MigrationBatch,
    error: Seq<char>,
)
    requires
        is_generic_boundary(failpoint),
        before matches JobState::Running { stage, .. } && recovery.rank_of(stage) == Some(
            recovery.rank(),
        ),
        before->Running_resume_after_key is None,
        state matches JobState::Running { stage, .. } && recovery.rank_of(stage) == Some(
            recovery.rank(),
        ),
        state.rows() >= before.rows(),
        state.rows() == before.rows() ==> state == before,
        failpoint is BatchCommitAfter ==> (batch matches MigrationBatch::Advanced { rows, .. }
            && rows > 0 && state.rows() + rows <= u64::MAX),
    ensures
        is_recoverable(
            recovery,
            failpoint,
            before,
            interrupted(state, recovery.id_spec(), batch, failpoint, error),
        ),
{
    let id = recovery.id_spec();
    let order = id.stages();
    let stage = state->Running_stage;
    lemma_ranks(recovery, stage);
    assert(order[order.index_of(stage)] == stage);
    if failpoint is StageTransitionAfter {
        match id.stage_after(stage) {
            Some(next) => {
                lemma_ranks(recovery, next);
                assert(next == order[recovery.rank() + 1]);
            },
            None => {},
        }
    }
}

/// Materialization recovers nodes before edges, and the cleanup recovers its stages from the
/// fence to the release.
pub proof fn law_recovered_stages_stand_for_job_stages(recovery: VectorRecoveryStage)
    ensures
        recovery.id_spec() is LegacyVectorPropertyMaterialization <==> recovery is MaterializeNodes
            || recovery is MaterializeEdges,
        recovery.id_spec() is LegacyVectorPhysicalCleanup <==> !(recovery is MaterializeNodes)
            && !(recovery is MaterializeEdges),
        recovery.rank_of(
            match recovery {
                VectorRecoveryStage::MaterializeNodes => MigrationStage::NodeProperties,
                VectorRecoveryStage::MaterializeEdges => MigrationStage::EdgeEndpoints,
                VectorRecoveryStage::FenceLegacySources => MigrationStage::FenceLegacyVectorSources,
                VectorRecoveryStage::RetireHotRows => MigrationStage::LegacyVectorHotRows,
                VectorRecoveryStage::RetireLayerZeroRows => MigrationStage::LegacyVectorLayer0Rows,
                VectorRecoveryStage::RetireCoreRows => MigrationStage::LegacyVectorCoreRows,
                VectorRecoveryStage::RetireDefinitions => MigrationStage::LegacyVectorDefinitions,
                VectorRecoveryStage::ReleaseReservations =>
                    MigrationStage::ReleaseLegacyVectorReservations,
            },
        ) == Some(recovery.rank()),
{
    lemma_ranks(recovery, MigrationStage::NodeProperties);
    lemma_ranks(recovery, MigrationStage::EdgeEndpoints);
    lemma_ranks(recovery, MigrationStage::FenceLegacyVectorSources);
    lemma_ranks(recovery, MigrationStage::LegacyVectorHotRows);
    lemma_ranks(recovery, MigrationStage::LegacyVectorLayer0Rows);
    lemma_ranks(recovery, MigrationStage::LegacyVectorCoreRows);
    lemma_ranks(recovery, MigrationStage::LegacyVectorDefinitions);
    lemma_ranks(recovery, MigrationStage::ReleaseLegacyVectorReservations);
}

/// What an interruption leaves never has fewer rows than before, stands in the stage it
/// started in, or in the next one where the stage was left, and without new rows resumes
/// where it did; it is complete only where the stage was left.
pub proof fn law_recoverable_states_lose_nothing(
    recovery: VectorRecoveryStage,
    failpoint: MigrationFailpoint,
    before: JobState,
    after: JobState,
)
    requires
        is_recoverable(recovery, failpoint, before, after),
    ensures
        before is Running,
        after.rows() >= before.rows(),
        after is Completed ==> failpoint is StageTransitionAfter,
        !(failpoint is StageTransitionAfter) ==> match after {
            JobState::Running { stage, .. } => stage == before->Running_stage,
            JobState::Failed { stage, .. } => stage == before->Running_stage,
            JobState::Completed { .. } => false,
        },
        failpoint is StageTransitionAfter ==> match after {
            JobState::Running { stage, .. } => stage != before->Running_stage,
            JobState::Failed { stage, .. } => stage != before->Running_stage,
            JobState::Completed { .. } => true,
        },
        after.rows() == before.rows() ==> match after {
            JobState::Running { resume_after_key, .. } => resume_after_key
                == before->Running_resume_after_key,
            JobState::Failed { resume_after_key, .. } => resume_after_key
                == before->Running_resume_after_key,
            JobState::Completed { .. } => true,
        },
{
    let order = recovery.id_spec().stages();
    let started = before->Running_stage;
    assert(order[order.index_of(started)] == started);
    match after {
        JobState::Running { stage, .. } => {
            assert(order[order.index_of(stage)] == stage);
        },
        JobState::Failed { stage, .. } => {
            assert(order[order.index_of(stage)] == stage);
        },
        JobState::Completed { .. } => {},
    }
}

/// The checkpoint that a stage was entered with is always recoverable before its end, as it
/// stands and as a failure recorded on it.
pub proof fn law_checkpoints_are_recoverable(
    recovery: VectorRecoveryStage,
    failpoint: MigrationFailpoint,
    before: JobState,
    error: Seq<char>,
)
    requires
        before matches JobState::Running { stage, .. } && recovery.rank_of(stage) == Some(
            recovery.rank(),
        ),
        !(failpoint is StageTransitionAfter),
    ensures
        is_recoverable(recovery, failpoint, before, before),
        is_recoverable(
            recovery,
            failpoint,
            before,
            JobState::Failed {
                stage: before->Running_stage,
                resume_after_key: before->Running_resume_after_key,
                processed_rows: before.rows(),
                error,
            },
        ),
{
}

/// The boundaries of a batch are those around its read and its write; those around its
/// commit and around the end of a stage are generic too.
pub proof fn law_boundaries_belong_to_batches(failpoint: MigrationFailpoint)
    ensures
        is_batch_boundary(failpoint) <==> failpoint is BatchReadBefore || failpoint
            is BatchReadAfter || failpoint is BatchWriteBefore || failpoint is BatchWriteAfter,
        is_generic_boundary(failpoint) <==> is_batch_boundary(failpoint) || failpoint
            is BatchCommitBefore || failpoint is BatchCommitAfter || failpoint
            is StageTransitionBefore || failpoint is StageTransitionAfter,
{
}

/// An interruption at the commit leaves no failure behind; before it the job stands still,
/// and behind it the batch has been applied.
pub proof fn law_commits_are_all_or_nothing(
    state: JobState,
    id: MigrationId,
    batch: MigrationBatch,
    error: Seq<char>,
)
    requires
        state is Running,
    ensures
        interrupted(state, id, batch, MigrationFailpoint::BatchCommitBefore, error) == state,
        interrupted(state, id, batch, MigrationFailpoint::BatchCommitAfter, error)
            == batch.applied(state, id),
        interrupted(state, id, batch, MigrationFailpoint::BatchReadBefore, error) is Failed,
        interrupted(state, id, batch, MigrationFailpoint::BatchReadAfter, error) is Failed,
        interrupted(state, id, batch, MigrationFailpoint::BatchWriteBefore, error) is Failed,
        interrupted(state, id, batch, MigrationFailpoint::BatchWriteAfter, error) is Failed,
        interrupted(state, id, batch, MigrationFailpoint::StageTransitionBefore, error) is Failed,
        interrupted(state, id, batch, MigrationFailpoint::StageTransitionAfter, error).rows()
            == state.rows(),
{
}

/// A turn is durable behind its commit, and a recorded failure is durable at once.
pub proof fn law_turns_are_durable_behind_their_commit(stored: JobState, end: TurnEnd)
    ensures
        end matches TurnEnd::Commit { job, .. } ==> durable_state(stored, end, true) == job.state@
            && durable_state(stored, end, false) == stored,
        end matches TurnEnd::PersistFailure { job } ==> durable_state(stored, end, true)
            == job.state@ && durable_state(stored, end, false) == job.state@,
{
}

} // verus!
