//! One controller turn of a migration job.
use vstd::prelude::*;

use super::batch::MigrationRowLimit;
use super::failpoints::{
    trip_migration_failpoint, FailpointEnvironment, FailpointOutcome, MigrationFailpoint,
    MigrationFailpoints,
};
use super::job::{
    advance_or_complete, JobState, MigrationId, MigrationJob, MigrationMode, MigrationResumeKey,
    MigrationStage,
};
use crate::error::HelixDbError;

verus! {

/// Catalog that a turn carries along.
#[derive(Debug, Clone, Copy, PartialEq, Eq, Structural)]
pub enum MigrationRunCatalog {
    /// No catalog.
    Absent,
    /// The immutable catalog of legacy vector properties.
    VectorProperties,
    /// The immutable catalog of legacy vector retirement.
    VectorRetirement,
}

/// Work of one batch.
#[derive(Debug, Clone, Copy, PartialEq, Eq, Structural)]
pub enum StageWork {
    ClearPropertyIndexes,
    RebuildNodeProperties,
    RewriteLegacyEdgePairs,
    RebuildEdgeEndpoints,
    MaterializeNodes,
    MaterializeEdges,
    FenceSources,
    DeleteHotLane,
    DeleteLayer0Lane,
    DeleteCoreRows,
    DeleteDefinitions,
    ReleaseReservations,
    DeleteLegacyEdgePairs,
    /// The stage has nothing to scan.
    Exhausted,
}

impl StageWork {
    /// The batch of a work that needs no rows.
    pub fn settled(self) -> (batch: Option<MigrationBatch>)
        ensures
            self is Exhausted ==> batch == Some(MigrationBatch::StageComplete),
            !(self is Exhausted) ==> batch is None,
    {
        match self {
            StageWork::Exhausted => Some(MigrationBatch::StageComplete),
            _ => None,
        }
    }

    /// The limit on the rows of one batch.
    ///
    /// Deleting a row stages less than was scanned of it, so the deletion of legacy edge
    /// pairs is bounded by bytes alone: a row limit would reopen the same range over and
    /// over.
    pub fn row_limit(self) -> (limit: MigrationRowLimit)
        ensures
            limit is ByteBudgetOnly <==> self is DeleteLegacyEdgePairs,
    {
        match self {
            StageWork::DeleteLegacyEdgePairs => MigrationRowLimit::ByteBudgetOnly,
            _ => MigrationRowLimit::Tuned,
        }
    }
}

impl MigrationId {
    /// The catalog that the migration needs.
    pub open spec fn catalog_spec(self) -> MigrationRunCatalog {
        match self {
            MigrationId::LegacyVectorPropertyMaterialization =>
                MigrationRunCatalog::VectorProperties,
            MigrationId::LegacyVectorPhysicalCleanup => MigrationRunCatalog::VectorRetirement,
            MigrationId::GraphFormatV1Rewrite | MigrationId::GraphFormatV1Cleanup =>
                MigrationRunCatalog::Absent,
        }
    }

    /// Selects the catalog that has to be loaded for the migration.
    pub fn catalog(self) -> (catalog: MigrationRunCatalog)
        ensures
            catalog == self.catalog_spec(),
    {
        match self {
            MigrationId::LegacyVectorPropertyMaterialization =>
                MigrationRunCatalog::VectorProperties,
            MigrationId::LegacyVectorPhysicalCleanup => MigrationRunCatalog::VectorRetirement,
            MigrationId::GraphFormatV1Rewrite | MigrationId::GraphFormatV1Cleanup =>
                MigrationRunCatalog::Absent,
        }
    }

    /// Whether the migration refuses to run without the catalog that it needs.
    pub open spec fn catalog_missing(self, catalog: MigrationRunCatalog) -> bool {
        self.catalog_spec() != MigrationRunCatalog::Absent && catalog != self.catalog_spec()
    }

    /// The message about a missing catalog.
    pub open spec fn catalog_message(self) -> Seq<char> {
        if self is LegacyVectorPropertyMaterialization {
            "legacy vector-property job has no immutable definition catalog"@
        } else {
            "legacy vector cleanup job has no immutable retirement catalog"@
        }
    }

    /// The message about a stage that is none of the migration's.
    pub open spec fn stage_message(self) -> Seq<char> {
        match self {
            MigrationId::GraphFormatV1Rewrite =>
                "graph rewrite job persisted a vector cleanup stage"@,
            MigrationId::LegacyVectorPropertyMaterialization =>
                "legacy vector-property job persisted an illegal stage"@,
            MigrationId::LegacyVectorPhysicalCleanup =>
                "legacy vector cleanup job persisted an unrelated stage"@,
            MigrationId::GraphFormatV1Cleanup =>
                "graph cleanup job persisted a vector cleanup stage"@,
        }
    }

    /// The work of a stage; nothing where the stage is none of the migration's.
    pub open spec fn work(self, stage: MigrationStage) -> Option<StageWork> {
        match (self, stage) {
            (MigrationId::GraphFormatV1Rewrite, MigrationStage::PropertyIndexes) => Some(
                StageWork::ClearPropertyIndexes,
            ),
            (MigrationId::GraphFormatV1Rewrite, MigrationStage::NodeProperties) => Some(
                StageWork::RebuildNodeProperties,
            ),
            (MigrationId::GraphFormatV1Rewrite, MigrationStage::LegacyEdgePairs) => Some(
                StageWork::RewriteLegacyEdgePairs,
            ),
            (MigrationId::GraphFormatV1Rewrite, MigrationStage::EdgeEndpoints) => Some(
                StageWork::RebuildEdgeEndpoints,
            ),
            (
                MigrationId::LegacyVectorPropertyMaterialization,
                MigrationStage::NodeProperties,
            ) => Some(StageWork::MaterializeNodes),
            (
                MigrationId::LegacyVectorPropertyMaterialization,
                MigrationStage::EdgeEndpoints,
            ) => Some(StageWork::MaterializeEdges),
            (
                MigrationId::LegacyVectorPhysicalCleanup,
                MigrationStage::FenceLegacyVectorSources,
            ) => Some(StageWork::FenceSources),
            (MigrationId::LegacyVectorPhysicalCleanup, MigrationStage::LegacyVectorHotRows) => Some(
                StageWork::DeleteHotLane,
            ),
            (
                MigrationId::LegacyVectorPhysicalCleanup,
                MigrationStage::LegacyVectorLayer0Rows,
            ) => Some(StageWork::DeleteLayer0Lane),
            (
                MigrationId::LegacyVectorPhysicalCleanup,
                MigrationStage::LegacyVectorCoreRows,
            ) => Some(StageWork::DeleteCoreRows),
            (
                MigrationId::LegacyVectorPhysicalCleanup,
                MigrationStage::LegacyVectorDefinitions,
            ) => Some(StageWork::DeleteDefinitions),
            (
                MigrationId::LegacyVectorPhysicalCleanup,
                MigrationStage::ReleaseLegacyVectorReservations,
            ) => Some(StageWork::ReleaseReservations),
            (MigrationId::GraphFormatV1Cleanup, MigrationStage::LegacyEdgePairs) => Some(
                StageWork::DeleteLegacyEdgePairs,
            ),
            (MigrationId::GraphFormatV1Cleanup, MigrationStage::PropertyIndexes) => Some(
                StageWork::Exhausted,
            ),
            (MigrationId::GraphFormatV1Cleanup, MigrationStage::NodeProperties) => Some(
                StageWork::Exhausted,
            ),
            (MigrationId::GraphFormatV1Cleanup, MigrationStage::EdgeEndpoints) => Some(
                StageWork::Exhausted,
            ),
            _ => None,
        }
    }
}

/// A migration has work for exactly the stages at which its jobs may be found.
pub proof fn law_every_legal_stage_has_work(id: MigrationId, stage: MigrationStage)
    ensures
        id.work(stage) is Some <==> id.allows(stage),
{
    let order = id.stages();
    match id {
        MigrationId::GraphFormatV1Rewrite => {
            assert(order[0] is PropertyIndexes && order[1] is NodeProperties
                && order[2] is LegacyEdgePairs && order[3] is EdgeEndpoints);
        },
        MigrationId::LegacyVectorPropertyMaterialization => {
            assert(order[0] is NodeProperties && order[1] is EdgeEndpoints);
        },
        MigrationId::LegacyVectorPhysicalCleanup => {
            assert(order[0] is FenceLegacyVectorSources && order[1] is LegacyVectorHotRows
                && order[2] is LegacyVectorLayer0Rows && order[3] is LegacyVectorCoreRows
                && order[4] is LegacyVectorDefinitions
                && order[5] is ReleaseLegacyVectorReservations);
        },
        MigrationId::GraphFormatV1Cleanup => {
            assert(order[0] is LegacyEdgePairs);
        },
    }
    if order.contains(stage) {
        let position = order.index_of(stage);
        assert(order[position] == stage);
    }
}

fn illegal(message: &'static str) -> (error: HelixDbError)
    ensures
        error.is_invariant_violation(message@),
{
    HelixDbError::InvariantViolation(message.to_owned())
}

/// Selects the work of the next batch; a job that is not running has none.
pub fn select_work(job: &MigrationJob, catalog: MigrationRunCatalog) -> (work: Result<
    Option<StageWork>,
    HelixDbError,
>)
    ensures
        match job.state@.running_stage() {
            None => work matches Ok(work) && work is None,
            Some(stage) => if job.id.catalog_missing(catalog) {
                work matches Err(error) && error.is_invariant_violation(job.id.catalog_message())
            } else if job.id.work(stage) is None {
                work matches Err(error) && error.is_invariant_violation(job.id.stage_message())
            } else {
                work matches Ok(work) && work == job.id.work(stage)
            },
        },
        (job.id is GraphFormatV1Rewrite && job.state@ is Running) ==> match job.state@->Running_stage {
            MigrationStage::PropertyIndexes => work == Ok::<Option<StageWork>, HelixDbError>(
                Some(StageWork::ClearPropertyIndexes),
            ),
            MigrationStage::NodeProperties => work == Ok::<Option<StageWork>, HelixDbError>(
                Some(StageWork::RebuildNodeProperties),
            ),
            MigrationStage::LegacyEdgePairs => work == Ok::<Option<StageWork>, HelixDbError>(
                Some(StageWork::RewriteLegacyEdgePairs),
            ),
            MigrationStage::EdgeEndpoints => work == Ok::<Option<StageWork>, HelixDbError>(
                Some(StageWork::RebuildEdgeEndpoints),
            ),
            _ => work is Err,
        },
        (job.id is GraphFormatV1Cleanup && job.state@ is Running) ==> match job.state@->Running_stage {
            MigrationStage::LegacyEdgePairs => work == Ok::<Option<StageWork>, HelixDbError>(
                Some(StageWork::DeleteLegacyEdgePairs),
            ),
            MigrationStage::PropertyIndexes
            | MigrationStage::NodeProperties
            | MigrationStage::EdgeEndpoints => work == Ok::<Option<StageWork>, HelixDbError>(
                Some(StageWork::Exhausted),
            ),
            _ => work is Err,
        },
        work matches Ok(Some(StageWork::DeleteLegacyEdgePairs)) ==> job.id is GraphFormatV1Cleanup,
        !(job.state@ is Running) ==> work == Ok::<Option<StageWork>, HelixDbError>(None),
{
    let stage = match job.state.running_stage() {
        Some(stage) => stage,
        None => {
            return Ok(None);
        },
    };
    match job.id {
        MigrationId::GraphFormatV1Rewrite => match stage {
            MigrationStage::PropertyIndexes => Ok(Some(StageWork::ClearPropertyIndexes)),
            MigrationStage::NodeProperties => Ok(Some(StageWork::RebuildNodeProperties)),
            MigrationStage::LegacyEdgePairs => Ok(Some(StageWork::RewriteLegacyEdgePairs)),
            MigrationStage::EdgeEndpoints => Ok(Some(StageWork::RebuildEdgeEndpoints)),
            _ => Err(illegal("graph rewrite job persisted a vector cleanup stage")),
        },
        MigrationId::LegacyVectorPropertyMaterialization => {
            match catalog {
                MigrationRunCatalog::VectorProperties => {},
                _ => {
                    return Err(
                        illegal("legacy vector-property job has no immutable definition catalog"),
                    );
                },
            }
            match stage {
                MigrationStage::NodeProperties => Ok(Some(StageWork::MaterializeNodes)),
                MigrationStage::EdgeEndpoints => Ok(Some(StageWork::MaterializeEdges)),
                _ => Err(illegal("legacy vector-property job persisted an illegal stage")),
            }
        },
        MigrationId::LegacyVectorPhysicalCleanup => {
            match catalog {
                MigrationRunCatalog::VectorRetirement => {},
                _ => {
                    return Err(
                        illegal("legacy vector cleanup job has no immutable retirement catalog"),
                    );
                },
            }
            match stage {
                MigrationStage::FenceLegacyVectorSources => Ok(Some(StageWork::FenceSources)),
                MigrationStage::LegacyVectorHotRows => Ok(Some(StageWork::DeleteHotLane)),
                MigrationStage::LegacyVectorLayer0Rows => Ok(Some(StageWork::DeleteLayer0Lane)),
                MigrationStage::LegacyVectorCoreRows => Ok(Some(StageWork::DeleteCoreRows)),
                MigrationStage::LegacyVectorDefinitions => Ok(Some(StageWork::DeleteDefinitions)),
                MigrationStage::ReleaseLegacyVectorReservations => Ok(
                    Some(StageWork::ReleaseReservations),
                ),
                _ => Err(illegal("legacy vector cleanup job persisted an unrelated stage")),
            }
        },
        MigrationId::GraphFormatV1Cleanup => match stage {
            MigrationStage::LegacyEdgePairs => Ok(Some(StageWork::DeleteLegacyEdgePairs)),
            MigrationStage::PropertyIndexes
            | MigrationStage::NodeProperties
            | MigrationStage::EdgeEndpoints => Ok(Some(StageWork::Exhausted)),
            _ => Err(illegal("graph cleanup job persisted a vector cleanup stage")),
        },
    }
}

/// What one batch did.
#[derive(Debug, PartialEq, Eq)]
pub enum MigrationBatch {
    /// Rows were processed up to a key.
    Advanced { resume_after_key: MigrationResumeKey, rows: u64, source_bytes: u64 },
    /// No row is left in the stage.
    StageComplete,
}

impl MigrationBatch {
    /// The state of a job after the batch.
    pub open spec fn applied(self, state: JobState, id: MigrationId) -> JobState {
        match self {
            MigrationBatch::Advanced { resume_after_key, rows, .. } => state.advanced(
                resume_after_key@,
                rows,
            ),
            MigrationBatch::StageComplete => state.stage_finished(id),
        }
    }

    /// What the turn reports.
    pub open spec fn step(self) -> MigrationStep {
        match self {
            MigrationBatch::Advanced { rows, source_bytes, .. } => MigrationStep {
                advanced: true,
                rows,
                admitted_bytes: source_bytes,
            },
            MigrationBatch::StageComplete => MigrationStep {
                advanced: true,
                rows: 0,
                admitted_bytes: 0,
            },
        }
    }
}

/// One migration controller turn before its enclosing transaction commits.
#[derive(Debug, Clone, Copy, PartialEq, Eq, Structural)]
pub struct MigrationStep {
    pub advanced: bool,
    pub rows: u64,
    pub admitted_bytes: u64,
}

impl MigrationStep {
    /// A turn that found nothing to do.
    pub fn idle() -> (step: Self)
        ensures
            !step.advanced,
            step.rows == 0,
            step.admitted_bytes == 0,
    {
        MigrationStep { advanced: false, rows: 0, admitted_bytes: 0 }
    }
}

/// Whether a turn that finds a job in its stored form works on a job.
pub open spec fn is_begun(stored: Option<MigrationJob>, job: Option<MigrationJob>) -> bool {
    match stored {
        None => job is None,
        Some(stored) => if stored.state@ is Completed {
            job is None
        } else {
            job matches Some(job) && job.id == stored.id && job.mode == stored.mode
                && job.state@ is Running && job.state@ == stored.state@.retried()
        },
    }
}

/// Takes the job that a turn works on out of its stored form.
///
/// A failed job is retried; a missing or completed one leaves the turn idle.
pub fn begin_turn(stored: Option<MigrationJob>) -> (job: Option<MigrationJob>)
    ensures
        is_begun(stored, job),
{
    let mut job = match stored {
        Some(job) => job,
        None => {
            return None;
        },
    };
    if job.is_failed() {
        job.retry();
    }
    if job.is_runnable() {
        Some(job)
    } else {
        None
    }
}

/// Whether crossing a boundary stops there.
pub open spec fn stops_at(
    failpoints: MigrationFailpoints,
    environment: FailpointEnvironment,
    failpoint: MigrationFailpoint,
) -> bool {
    failpoints.armed() == Some(failpoint) || environment.names(failpoint)
}

/// Whether an outcome, and what is armed after it, are those of a stop at a boundary: an
/// armed failure fires and is spent, and the environment asks for a failure or an abort.
pub open spec fn is_stop_at(
    before: MigrationFailpoints,
    environment: FailpointEnvironment,
    failpoint: MigrationFailpoint,
    outcome: FailpointOutcome,
    after: MigrationFailpoints,
) -> bool {
    if before.armed() == Some(failpoint) {
        &&& outcome.is_injected_at(failpoint)
        &&& after.armed() is None
        &&& after.fired()
    } else {
        &&& after == before
        &&& if environment.aborts() {
            outcome is Abort
        } else {
            outcome.is_injected_at(failpoint)
        }
    }
}

/// Whether a job, what is armed and what a turn reports are those behind a batch.
pub open spec fn is_batch_applied(
    job: MigrationJob,
    batch: MigrationBatch,
    failpoints: MigrationFailpoints,
    environment: FailpointEnvironment,
    moved: MigrationJob,
    spent: MigrationFailpoints,
    step: Result<MigrationStep, FailpointOutcome>,
) -> bool {
    &&& moved.id == job.id
    &&& moved.mode == job.mode
    &&& if batch is StageComplete && stops_at(
        failpoints,
        environment,
        MigrationFailpoint::StageTransitionBefore,
    ) {
        &&& step matches Err(outcome) && is_stop_at(
            failpoints,
            environment,
            MigrationFailpoint::StageTransitionBefore,
            outcome,
            spent,
        )
        &&& moved.state@ == job.state@
    } else if batch is StageComplete && stops_at(
        failpoints,
        environment,
        MigrationFailpoint::StageTransitionAfter,
    ) {
        &&& step matches Err(outcome) && is_stop_at(
            failpoints,
            environment,
            MigrationFailpoint::StageTransitionAfter,
            outcome,
            spent,
        )
        &&& moved.state@ == job.state@.stage_finished(job.id)
    } else {
        &&& step == Ok::<MigrationStep, FailpointOutcome>(batch.step())
        &&& moved.state@ == batch.applied(job.state@, job.id)
        &&& spent == failpoints
    }
}

/// Applies a batch to a running job.
///
/// Leaving a stage crosses a boundary before and after the job moves on; a failure
/// injected behind it stops the turn with the job already moved.
pub fn apply_batch(
    job: &mut MigrationJob,
    batch: MigrationBatch,
    failpoints: &mut MigrationFailpoints,
    environment: &FailpointEnvironment,
) -> (step: Result<MigrationStep, FailpointOutcome>)
    requires
        old(job).state@.is_legal(old(job).id),
    ensures
        is_batch_applied(
            *old(job),
            batch,
            *old(failpoints),
            *environment,
            *final(job),
            *final(failpoints),
            step,
        ),
{
    match batch {
        MigrationBatch::Advanced { resume_after_key, rows, source_bytes } => {
            job.record_advanced(resume_after_key, rows);
            Ok(MigrationStep { advanced: true, rows, admitted_bytes: source_bytes })
        },
        MigrationBatch::StageComplete => {
            match trip_migration_failpoint(
                failpoints,
                MigrationFailpoint::StageTransitionBefore,
                environment,
            ) {
                FailpointOutcome::Pass => {},
                outcome => {
                    return Err(outcome);
                },
            }
            advance_or_complete(job);
            match trip_migration_failpoint(
                failpoints,
                MigrationFailpoint::StageTransitionAfter,
                environment,
            ) {
                FailpointOutcome::Pass => {},
                outcome => {
                    return Err(outcome);
                },
            }
            Ok(MigrationStep { advanced: true, rows: 0, admitted_bytes: 0 })
        },
    }
}

/// A work without rows ends its job at once: a cleanup job that stands in another graph
/// stage completes with the rows it had, and its turn reports neither rows nor bytes.
pub proof fn law_exhausted_work_completes_the_job(id: MigrationId, state: JobState)
    requires
        state.running_stage() matches Some(stage) && id.work(stage) == Some(StageWork::Exhausted),
    ensures
        MigrationBatch::StageComplete.applied(state, id) == (JobState::Completed {
            processed_rows: state.rows(),
        }),
        MigrationBatch::StageComplete.step() == (MigrationStep {
            advanced: true,
            rows: 0,
            admitted_bytes: 0,
        }),
{
}

/// What a turn makes durable.
#[derive(Debug)]
pub enum TurnEnd {
    /// The job together with the rows of its batch, and the readiness of the graph
    /// format where the rewrite has just completed.
    Commit { job: MigrationJob, publish_graph_ready: bool, step: MigrationStep },
    /// The failed job alone; the rows of its batch are rolled back.
    PersistFailure { job: MigrationJob },
}

/// Whether a turn that comes to an outcome ends as it should.
pub open spec fn is_ended(
    job: MigrationJob,
    outcome: Result<MigrationStep, String>,
    end: TurnEnd,
) -> bool {
    match outcome {
        Ok(step) => end matches TurnEnd::Commit {
            job: committed,
            publish_graph_ready,
            step: reported,
        } && {
            &&& committed == job
            &&& publish_graph_ready == (job.id is GraphFormatV1Rewrite && job.state@ is Completed)
            &&& reported == step
        },
        Err(error) => end matches TurnEnd::PersistFailure { job: persisted } && {
            &&& persisted.id == job.id
            &&& persisted.mode == job.mode
            &&& persisted.state@ == job.state@.failed(super::job::shown_error(error@))
            &&& job.state@ is Running ==> (persisted.state@ matches JobState::Failed {
                error: shown,
                ..
            } && shown.len() > 0)
        },
    }
}

/// Decides what a turn makes durable.
pub fn end_turn(job: MigrationJob, outcome: Result<MigrationStep, String>) -> (end: TurnEnd)
    ensures
        is_ended(job, outcome, end),
{
    match outcome {
        Ok(step) => {
            let publish_graph_ready = match job.id {
                MigrationId::GraphFormatV1Rewrite => job.is_completed(),
                _ => false,
            };
            TurnEnd::Commit { job, publish_graph_ready, step }
        },
        Err(error) => {
            let mut job = job;
            proof {
                if job.state@ is Running {
                    super::job::law_failures_have_a_text(job.state@, error@);
                }
            }
            job.fail(error);
            TurnEnd::PersistFailure { job }
        },
    }
}

/// Boundaries that a turn crosses between its batch and its commit.
pub fn boundaries_before_commit(publish_graph_ready: bool) -> (boundaries: Vec<MigrationFailpoint>)
    ensures
        boundaries@ == if publish_graph_ready {
            seq![
                MigrationFailpoint::RewriteCompletionBefore,
                MigrationFailpoint::BatchCommitBefore,
            ]
        } else {
            seq![MigrationFailpoint::BatchCommitBefore]
        },
{
    let mut boundaries: Vec<MigrationFailpoint> = Vec::new();
    if publish_graph_ready {
        boundaries.push(MigrationFailpoint::RewriteCompletionBefore);
    }
    boundaries.push(MigrationFailpoint::BatchCommitBefore);
    boundaries
}

/// Boundaries that a turn crosses behind its commit.
pub fn boundaries_after_commit(publish_graph_ready: bool) -> (boundaries: Vec<MigrationFailpoint>)
    ensures
        boundaries@ == if publish_graph_ready {
            seq![MigrationFailpoint::BatchCommitAfter, MigrationFailpoint::RewriteCompletionAfter]
        } else {
            seq![MigrationFailpoint::BatchCommitAfter]
        },
{
    let mut boundaries: Vec<MigrationFailpoint> = Vec::new();
    boundaries.push(MigrationFailpoint::BatchCommitAfter);
    if publish_graph_ready {
        boundaries.push(MigrationFailpoint::RewriteCompletionAfter);
    }
    boundaries
}

/// Whether the background worker takes a job up.
pub open spec fn is_background_work(job: MigrationJob) -> bool {
    job.mode is Background && !(job.state@ is Completed)
}

/// Picks the first background job, in scan order, that is running or failed.
pub fn next_background_job(jobs: &Vec<MigrationJob>) -> (picked: Option<MigrationId>)
    ensures
        match picked {
            Some(id) => exists|i: int|
                #![trigger jobs@[i]]
                0 <= i < jobs@.len() && jobs@[i].id == id && is_background_work(jobs@[i])
                    && forall|j: int| 0 <= j < i ==> !is_background_work(#[trigger] jobs@[j]),
            None => forall|i: int|
                0 <= i < jobs@.len() ==> !is_background_work(#[trigger] jobs@[i]),
        },
{
    let mut position: usize = 0;
    while position < jobs.len()
        invariant
            position <= jobs.len(),
            forall|i: int| 0 <= i < position ==> !is_background_work(#[trigger] jobs@[i]),
        decreases jobs.len() - position,
    {
        let job = &jobs[position];
        let background = match job.mode {
            MigrationMode::Background => true,
            MigrationMode::BlockingStartup => false,
        };
        if background && (job.is_runnable() || job.is_failed()) {
            assert(is_background_work(jobs@[position as int]));
            return Some(job.id);
        }
        position = position + 1;
    }
    None
}

/// Only the cleanup behind a completed rewrite deletes legacy edge pairs: the rewrite turns
/// them into current edges, and no other work touches them.
pub proof fn law_legacy_pairs_are_rewritten_before_they_are_deleted(
    id: MigrationId,
    stage: MigrationStage,
)
    ensures
        id.work(stage) == Some(StageWork::DeleteLegacyEdgePairs) <==> id is GraphFormatV1Cleanup
            && stage is LegacyEdgePairs,
        id.work(stage) == Some(StageWork::RewriteLegacyEdgePairs) <==> id is GraphFormatV1Rewrite
            && stage is LegacyEdgePairs,
        id.work(stage) == Some(StageWork::ClearPropertyIndexes) <==> id is GraphFormatV1Rewrite
            && stage is PropertyIndexes,
        id.work(stage) == Some(StageWork::RebuildNodeProperties) <==> id is GraphFormatV1Rewrite
            && stage is NodeProperties,
        id.work(stage) == Some(StageWork::RebuildEdgeEndpoints) <==> id is GraphFormatV1Rewrite
            && stage is EdgeEndpoints,
        id.work(stage) == Some(StageWork::Exhausted) <==> id is GraphFormatV1Cleanup && (
        stage is PropertyIndexes || stage is NodeProperties || stage is EdgeEndpoints),
{
}

/// Vector properties are restored by the materialization alone, each element at its stage.
pub proof fn law_only_materialization_restores_vector_properties(
    id: MigrationId,
    stage: MigrationStage,
)
    ensures
        id.work(stage) == Some(StageWork::MaterializeNodes) <==> id
            is LegacyVectorPropertyMaterialization && stage is NodeProperties,
        id.work(stage) == Some(StageWork::MaterializeEdges) <==> id
            is LegacyVectorPropertyMaterialization && stage is EdgeEndpoints,
{
}

/// Legacy vector storage is fenced, emptied and released by the physical cleanup alone,
/// each part at the stage that is about it.
pub proof fn law_only_vector_cleanup_empties_vector_storage(id: MigrationId, stage: MigrationStage)
    ensures
        id is LegacyVectorPhysicalCleanup ==> {
            &&& id.work(stage) == Some(StageWork::FenceSources) <==> stage
                is FenceLegacyVectorSources
            &&& id.work(stage) == Some(StageWork::DeleteHotLane) <==> stage is LegacyVectorHotRows
            &&& id.work(stage) == Some(StageWork::DeleteLayer0Lane) <==> stage
                is LegacyVectorLayer0Rows
            &&& id.work(stage) == Some(StageWork::DeleteCoreRows) <==> stage
                is LegacyVectorCoreRows
            &&& id.work(stage) == Some(StageWork::DeleteDefinitions) <==> stage
                is LegacyVectorDefinitions
            &&& id.work(stage) == Some(StageWork::ReleaseReservations) <==> stage
                is ReleaseLegacyVectorReservations
        },
        !(id is LegacyVectorPhysicalCleanup) ==> !(id.work(stage) matches Some(work) && (work
            is FenceSources || work is DeleteHotLane || work is DeleteLayer0Lane || work
            is DeleteCoreRows || work is DeleteDefinitions || work is ReleaseReservations)),
{
}

/// A migration runs without a catalog unless it is about legacy vectors, and then with its
/// own catalog only.
pub proof fn law_vector_migrations_need_their_own_catalog(
    id: MigrationId,
    catalog: MigrationRunCatalog,
)
    ensures
        id is LegacyVectorPropertyMaterialization ==> (id.catalog_missing(catalog) <==> !(catalog
            is VectorProperties)) && id.catalog_spec() is VectorProperties,
        id is LegacyVectorPhysicalCleanup ==> (id.catalog_missing(catalog) <==> !(catalog
            is VectorRetirement)) && id.catalog_spec() is VectorRetirement,
        (id is GraphFormatV1Rewrite || id is GraphFormatV1Cleanup) ==> !id.catalog_missing(catalog)
            && id.catalog_spec() is Absent,
        id is LegacyVectorPropertyMaterialization ==> id.catalog_message()
            == "legacy vector-property job has no immutable definition catalog"@,
        id is LegacyVectorPhysicalCleanup ==> id.catalog_message()
            == "legacy vector cleanup job has no immutable retirement catalog"@,
        id is GraphFormatV1Rewrite ==> id.stage_message()
            == "graph rewrite job persisted a vector cleanup stage"@,
        id is LegacyVectorPropertyMaterialization ==> id.stage_message()
            == "legacy vector-property job persisted an illegal stage"@,
        id is LegacyVectorPhysicalCleanup ==> id.stage_message()
            == "legacy vector cleanup job persisted an unrelated stage"@,
        id is GraphFormatV1Cleanup ==> id.stage_message()
            == "graph cleanup job persisted a vector cleanup stage"@,
{
}

/// A batch of rows moves a running job to its last key within the stage and reports what
/// was read; an exhausted stage reports nothing and never leaves the job at that stage.
pub proof fn law_batches_report_what_they_move(
    id: MigrationId,
    stage: MigrationStage,
    key: Option<Seq<u8>>,
    processed_rows: u64,
    batch: MigrationBatch,
)
    requires
        id.stages().contains(stage),
    ensures
        ({
            let before = JobState::Running { stage, resume_after_key: key, processed_rows };
            let after = batch.applied(before, id);
            &&& batch.step().advanced
            &&& match batch {
                MigrationBatch::Advanced { resume_after_key, rows, source_bytes } => {
                    &&& batch.step().rows == rows
                    &&& batch.step().admitted_bytes == source_bytes
                    &&& after.running_stage() == Some(stage)
                    &&& after->Running_resume_after_key == Some(resume_after_key@)
                    &&& processed_rows + rows <= u64::MAX ==> after.rows() == processed_rows + rows
                },
                MigrationBatch::StageComplete => {
                    &&& batch.step().rows == 0
                    &&& batch.step().admitted_bytes == 0
                    &&& after.running_stage() != Some(stage)
                    &&& after.rows() == processed_rows
                    &&& after is Running ==> after->Running_resume_after_key is None
                },
            }
        }),
{
    let order = id.stages();
    let position = order.index_of(stage);
    assert(order[position] == stage);
    if position + 1 < order.len() {
        assert(order[position + 1] != order[position]);
    }
}

/// A turn takes up every job that has not completed: a running one where it stands, and a
/// failed one where it failed.
pub proof fn law_turns_take_up_unfinished_jobs(stored: MigrationJob, job: Option<MigrationJob>)
    requires
        is_begun(Some(stored), job),
    ensures
        job is None <==> stored.state@ is Completed,
        job matches Some(job) ==> job.id == stored.id && job.mode == stored.mode,
        stored.state@ matches JobState::Running { .. } ==> job->0.state@ == stored.state@,
        stored.state@ matches JobState::Failed { stage, resume_after_key, processed_rows, .. }
            ==> job->0.state@ == (JobState::Running { stage, resume_after_key, processed_rows }),
{
}

/// No job, no turn.
pub proof fn law_turns_need_a_job(job: Option<MigrationJob>)
    requires
        is_begun(None, job),
    ensures
        job is None,
{
}

/// A turn that came to a step commits its job as it is and reports the step; the graph
/// format becomes ready with the commit that completes the rewrite, and with no other. A
/// turn that failed records the failure where the job stood, with its text.
pub proof fn law_turns_commit_or_record_a_failure(
    job: MigrationJob,
    outcome: Result<MigrationStep, String>,
    end: TurnEnd,
)
    requires
        is_ended(job, outcome, end),
    ensures
        outcome is Ok <==> end is Commit,
        outcome is Ok ==> end->Commit_job == job && end->step == outcome->Ok_0,
        outcome is Ok ==> (end->publish_graph_ready <==> job.id
            == MigrationId::GraphFormatV1Rewrite && (job.state@ matches JobState::Completed { .. })),
        outcome is Err ==> end->PersistFailure_job.id == job.id && end->PersistFailure_job.mode
            == job.mode,
        (outcome is Err && job.state@ is Running) ==> (end->PersistFailure_job.state@ matches
            JobState::Failed { stage, resume_after_key, processed_rows, error } && stage
            == job.state@->Running_stage && resume_after_key
            == job.state@->Running_resume_after_key && processed_rows
            == job.state@->Running_processed_rows && (outcome->Err_0@.len() > 0 ==> error
            == outcome->Err_0@)),
        (outcome is Err && !(job.state@ is Running)) ==> end->PersistFailure_job.state@
            == job.state@,
{
}

/// Where no boundary stops, a batch is applied as a whole; a stop before the transition
/// leaves the job where it was, and one behind it leaves it at the next stage.
pub proof fn law_batches_stop_only_at_boundaries(
    job: MigrationJob,
    batch: MigrationBatch,
    failpoints: MigrationFailpoints,
    environment: FailpointEnvironment,
    moved: MigrationJob,
    spent: MigrationFailpoints,
    step: Result<MigrationStep, FailpointOutcome>,
)
    requires
        is_batch_applied(job, batch, failpoints, environment, moved, spent, step),
    ensures
        moved.id == job.id,
        moved.mode == job.mode,
        batch is Advanced ==> step == Ok::<MigrationStep, FailpointOutcome>(
            MigrationStep {
                advanced: true,
                rows: batch->rows,
                admitted_bytes: batch->source_bytes,
            },
        ) && moved.state@ == job.state@.advanced(batch->resume_after_key@, batch->rows) && spent
            == failpoints,
        (batch is StageComplete && failpoints.armed() is None && environment.failpoint is None)
            ==> step == Ok::<MigrationStep, FailpointOutcome>(
            MigrationStep { advanced: true, rows: 0, admitted_bytes: 0 },
        ) && moved.state@ == job.state@.stage_finished(job.id),
        (batch is StageComplete && failpoints.armed() == Some(
            MigrationFailpoint::StageTransitionBefore,
        )) ==> step is Err && moved.state@ == job.state@ && spent.armed() is None,
        (batch is StageComplete && failpoints.armed() == Some(
            MigrationFailpoint::StageTransitionAfter,
        ) && environment.failpoint is None) ==> step is Err && moved.state@
            == job.state@.stage_finished(job.id) && spent.armed() is None,
{
}

/// The background worker takes up background jobs that run or failed, and no others.
pub proof fn law_background_work_is_unfinished(job: MigrationJob)
    ensures
        is_background_work(job) <==> job.mode == MigrationMode::Background && (job.state@ is Running
            || job.state@ is Failed),
{
}

/// A boundary stops a turn exactly where a failure is armed for it or the environment names
/// it. An armed failure fires once; the environment changes nothing and may abort.
pub proof fn law_stops_spend_what_was_armed(
    before: MigrationFailpoints,
    environment: FailpointEnvironment,
    failpoint: MigrationFailpoint,
    outcome: FailpointOutcome,
    after: MigrationFailpoints,
)
    ensures
        stops_at(before, environment, failpoint) <==> before.armed() == Some(failpoint)
            || environment.names(failpoint),
        before.armed() == Some(failpoint) ==> (is_stop_at(
            before,
            environment,
            failpoint,
            outcome,
            after,
        ) <==> outcome.is_injected_at(failpoint) && after.armed() is None && after.fired()),
        before.armed() != Some(failpoint) ==> (is_stop_at(
            before,
            environment,
            failpoint,
            outcome,
            after,
        ) <==> after == before && (environment.aborts() ==> outcome is Abort) && (
        !environment.aborts() ==> outcome.is_injected_at(failpoint))),
{
}

} // verus!
