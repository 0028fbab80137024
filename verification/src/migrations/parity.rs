//! Status of migration jobs for external comparison.
use vstd::prelude::*;

use super::job::{JobState, MigrationId, MigrationJob, MigrationJobState, MigrationMode, MigrationStage};

verus! {

/// Migration that a status is about.
#[derive(Debug, Clone, Copy, PartialEq, Eq, PartialOrd, Ord, Structural)]
pub enum MigrationParityId {
    GraphFormatV1Rewrite,
    LegacyVectorPropertyMaterialization,
    LegacyVectorPhysicalCleanup,
    GraphFormatV1Cleanup,
    VectorSimHashDirectoryV1,
}

/// Execution mode that a status reports.
#[derive(Debug, Clone, Copy, PartialEq, Eq, PartialOrd, Ord, Structural)]
pub enum MigrationParityMode {
    BlockingStartup,
    Background,
}

/// Stage that a status reports.
#[derive(Debug, Clone, Copy, PartialEq, Eq, PartialOrd, Ord, Structural)]
pub enum MigrationParityStage {
    PropertyIndexes,
    NodeProperties,
    LegacyEdgePairs,
    EdgeEndpoints,
    FenceLegacyVectorSources,
    LegacyVectorHotRows,
    LegacyVectorLayer0Rows,
    LegacyVectorCoreRows,
    LegacyVectorDefinitions,
    ReleaseLegacyVectorReservations,
    VectorDirectorySelectTarget,
    VectorDirectoryPreflight,
    VectorDirectoryBackfill,
    VectorDirectoryVerify,
    VectorDirectoryPublish,
}

/// State that a status reports; resume keys are reduced to their presence.
#[derive(Debug, PartialEq, Eq)]
pub enum MigrationParityState {
    Running { stage: MigrationParityStage, processed_rows: u64, has_resume_key: bool },
    Completed { processed_rows: u64 },
    Failed {
        stage: MigrationParityStage,
        processed_rows: u64,
        has_resume_key: bool,
        error: String,
    },
}

/// A reported state as a mathematical value.
#[verifier::ext_equal]
pub enum ParityState {
    Running { stage: MigrationParityStage, processed_rows: u64, has_resume_key: bool },
    Completed { processed_rows: u64 },
    Failed {
        stage: MigrationParityStage,
        processed_rows: u64,
        has_resume_key: bool,
        error: Seq<char>,
    },
}

impl View for MigrationParityState {
    type V = ParityState;

    open spec fn view(&self) -> ParityState {
        match self {
            MigrationParityState::Running { stage, processed_rows, has_resume_key } =>
                ParityState::Running {
                    stage: *stage,
                    processed_rows: *processed_rows,
                    has_resume_key: *has_resume_key,
                },
            MigrationParityState::Completed { processed_rows } => ParityState::Completed {
                processed_rows: *processed_rows,
            },
            MigrationParityState::Failed { stage, processed_rows, has_resume_key, error } =>
                ParityState::Failed {
                    stage: *stage,
                    processed_rows: *processed_rows,
                    has_resume_key: *has_resume_key,
                    error: error@,
                },
        }
    }
}

impl MigrationParityState {
    /// Whether the job has completed.
    pub fn is_completed(&self) -> (completed: bool)
        ensures
            completed == (self@ is Completed),
    {
        matches!(self, MigrationParityState::Completed { .. })
    }

    /// Rows that the job has processed.
    pub fn processed_rows(&self) -> (rows: u64)
        ensures
            rows == self@.rows(),
    {
        match self {
            MigrationParityState::Running { processed_rows, .. } => *processed_rows,
            MigrationParityState::Completed { processed_rows } => *processed_rows,
            MigrationParityState::Failed { processed_rows, .. } => *processed_rows,
        }
    }
}

impl ParityState {
    /// Rows that the job has processed.
    pub open spec fn rows(self) -> u64 {
        match self {
            ParityState::Running { processed_rows, .. } => processed_rows,
            ParityState::Completed { processed_rows } => processed_rows,
            ParityState::Failed { processed_rows, .. } => processed_rows,
        }
    }
}

/// Status of one migration job.
#[derive(Debug, PartialEq, Eq)]
pub struct MigrationParityJobStatus {
    pub id: MigrationParityId,
    pub mode: MigrationParityMode,
    pub state: MigrationParityState,
}

/// A status as a mathematical value.
#[verifier::ext_equal]
pub struct ParityStatus {
    pub id: MigrationParityId,
    pub mode: MigrationParityMode,
    pub state: ParityState,
}

impl View for MigrationParityJobStatus {
    type V = ParityStatus;

    open spec fn view(&self) -> ParityStatus {
        ParityStatus { id: self.id, mode: self.mode, state: self.state@ }
    }
}

impl MigrationParityId {
    /// Place of the migration in the order of statuses.
    pub open spec fn rank(self) -> nat {
        match self {
            MigrationParityId::GraphFormatV1Rewrite => 0,
            MigrationParityId::LegacyVectorPropertyMaterialization => 1,
            MigrationParityId::LegacyVectorPhysicalCleanup => 2,
            MigrationParityId::GraphFormatV1Cleanup => 3,
            MigrationParityId::VectorSimHashDirectoryV1 => 4,
        }
    }

    fn position(self) -> (position: u8)
        ensures
            position == self.rank(),
            position < 5,
    {
        match self {
            MigrationParityId::GraphFormatV1Rewrite => 0,
            MigrationParityId::LegacyVectorPropertyMaterialization => 1,
            MigrationParityId::LegacyVectorPhysicalCleanup => 2,
            MigrationParityId::GraphFormatV1Cleanup => 3,
            MigrationParityId::VectorSimHashDirectoryV1 => 4,
        }
    }
}

/// The reported form of an id.
pub open spec fn id_report(id: MigrationId) -> MigrationParityId {
    match id {
        MigrationId::GraphFormatV1Rewrite => MigrationParityId::GraphFormatV1Rewrite,
        MigrationId::LegacyVectorPropertyMaterialization =>
            MigrationParityId::LegacyVectorPropertyMaterialization,
        MigrationId::LegacyVectorPhysicalCleanup => MigrationParityId::LegacyVectorPhysicalCleanup,
        MigrationId::GraphFormatV1Cleanup => MigrationParityId::GraphFormatV1Cleanup,
    }
}

/// The reported form of a mode.
pub open spec fn mode_report(mode: MigrationMode) -> MigrationParityMode {
    match mode {
        MigrationMode::BlockingStartup => MigrationParityMode::BlockingStartup,
        MigrationMode::Background => MigrationParityMode::Background,
    }
}

/// The reported form of a stage.
pub open spec fn stage_report(stage: MigrationStage) -> MigrationParityStage {
    match stage {
        MigrationStage::PropertyIndexes => MigrationParityStage::PropertyIndexes,
        MigrationStage::NodeProperties => MigrationParityStage::NodeProperties,
        MigrationStage::LegacyEdgePairs => MigrationParityStage::LegacyEdgePairs,
        MigrationStage::EdgeEndpoints => MigrationParityStage::EdgeEndpoints,
        MigrationStage::FenceLegacyVectorSources => MigrationParityStage::FenceLegacyVectorSources,
        MigrationStage::LegacyVectorHotRows => MigrationParityStage::LegacyVectorHotRows,
        MigrationStage::LegacyVectorLayer0Rows => MigrationParityStage::LegacyVectorLayer0Rows,
        MigrationStage::LegacyVectorCoreRows => MigrationParityStage::LegacyVectorCoreRows,
        MigrationStage::LegacyVectorDefinitions => MigrationParityStage::LegacyVectorDefinitions,
        MigrationStage::ReleaseLegacyVectorReservations =>
            MigrationParityStage::ReleaseLegacyVectorReservations,
    }
}

/// The reported form of a state.
pub open spec fn state_report(state: JobState) -> ParityState {
    match state {
        JobState::Running { stage, resume_after_key, processed_rows } => ParityState::Running {
            stage: stage_report(stage),
            processed_rows,
            has_resume_key: resume_after_key is Some,
        },
        JobState::Completed { processed_rows } => ParityState::Completed { processed_rows },
        JobState::Failed { stage, resume_after_key, processed_rows, error } =>
            ParityState::Failed {
                stage: stage_report(stage),
                processed_rows,
                has_resume_key: resume_after_key is Some,
                error,
            },
    }
}

/// The reported form of a job.
pub open spec fn job_report(job: MigrationJob) -> ParityStatus {
    ParityStatus {
        id: id_report(job.id),
        mode: mode_report(job.mode),
        state: state_report(job.state@),
    }
}

/// Reports an id.
pub fn parity_id(id: MigrationId) -> (report: MigrationParityId)
    ensures
        report == id_report(id),
{
    match id {
        MigrationId::GraphFormatV1Rewrite => MigrationParityId::GraphFormatV1Rewrite,
        MigrationId::LegacyVectorPropertyMaterialization =>
            MigrationParityId::LegacyVectorPropertyMaterialization,
        MigrationId::LegacyVectorPhysicalCleanup => MigrationParityId::LegacyVectorPhysicalCleanup,
        MigrationId::GraphFormatV1Cleanup => MigrationParityId::GraphFormatV1Cleanup,
    }
}

/// Reports a mode.
pub fn parity_mode(mode: MigrationMode) -> (report: MigrationParityMode)
    ensures
        report == mode_report(mode),
{
    match mode {
        MigrationMode::BlockingStartup => MigrationParityMode::BlockingStartup,
        MigrationMode::Background => MigrationParityMode::Background,
    }
}

/// Reports a stage.
pub fn parity_stage(stage: MigrationStage) -> (report: MigrationParityStage)
    ensures
        report == stage_report(stage),
{
    match stage {
        MigrationStage::PropertyIndexes => MigrationParityStage::PropertyIndexes,
        MigrationStage::NodeProperties => MigrationParityStage::NodeProperties,
        MigrationStage::LegacyEdgePairs => MigrationParityStage::LegacyEdgePairs,
        MigrationStage::EdgeEndpoints => MigrationParityStage::EdgeEndpoints,
        MigrationStage::FenceLegacyVectorSources => MigrationParityStage::FenceLegacyVectorSources,
        MigrationStage::LegacyVectorHotRows => MigrationParityStage::LegacyVectorHotRows,
        MigrationStage::LegacyVectorLayer0Rows => MigrationParityStage::LegacyVectorLayer0Rows,
        MigrationStage::LegacyVectorCoreRows => MigrationParityStage::LegacyVectorCoreRows,
        MigrationStage::LegacyVectorDefinitions => MigrationParityStage::LegacyVectorDefinitions,
        MigrationStage::ReleaseLegacyVectorReservations =>
            MigrationParityStage::ReleaseLegacyVectorReservations,
    }
}

/// Reports a state.
pub fn parity_state(state: &MigrationJobState) -> (report: MigrationParityState)
    ensures
        report@ == state_report(state@),
{
    match state {
        MigrationJobState::Running { stage, resume_after_key, processed_rows } =>
            MigrationParityState::Running {
                stage: parity_stage(*stage),
                processed_rows: *processed_rows,
                has_resume_key: resume_after_key.is_some(),
            },
        MigrationJobState::Completed { processed_rows } => MigrationParityState::Completed {
            processed_rows: *processed_rows,
        },
        MigrationJobState::Failed { stage, resume_after_key, processed_rows, error } =>
            MigrationParityState::Failed {
                stage: parity_stage(*stage),
                processed_rows: *processed_rows,
                has_resume_key: resume_after_key.is_some(),
                error: error.clone(),
            },
    }
}

/// The statuses of jobs, in their order.
pub open spec fn job_reports(jobs: Seq<MigrationJob>) -> Seq<ParityStatus> {
    Seq::new(jobs.len(), |i: int| job_report(jobs[i]))
}

/// The statuses that belong to one migration, in their order.
pub open spec fn of_rank(statuses: Seq<ParityStatus>, rank: nat) -> Seq<ParityStatus>
    decreases statuses.len(),
{
    if statuses.len() == 0 {
        Seq::empty()
    } else {
        let before = of_rank(statuses.drop_last(), rank);
        if statuses.last().id.rank() == rank {
            before.push(statuses.last())
        } else {
            before
        }
    }
}

/// The statuses of all migrations below a rank: those of one migration stand together
/// and keep their order.
pub open spec fn ordered_below(statuses: Seq<ParityStatus>, rank: nat) -> Seq<ParityStatus>
    decreases rank,
{
    if rank == 0 {
        Seq::empty()
    } else {
        ordered_below(statuses, (rank - 1) as nat) + of_rank(statuses, (rank - 1) as nat)
    }
}

/// All statuses: those of the jobs, then the one of the vector directory, if any.
pub open spec fn all_reports(
    jobs: Seq<MigrationJob>,
    directory: Option<MigrationParityJobStatus>,
) -> Seq<ParityStatus> {
    match directory {
        Some(status) => job_reports(jobs).push(status@),
        None => job_reports(jobs),
    }
}

/// Statuses as mathematical values.
pub open spec fn status_views(statuses: Seq<MigrationParityJobStatus>) -> Seq<ParityStatus> {
    Seq::new(statuses.len(), |i: int| statuses[i]@)
}

/// Reports all jobs and the vector directory, in the order of their migrations.
pub fn migration_parity_job_statuses(
    jobs: &Vec<MigrationJob>,
    directory: Option<MigrationParityJobStatus>,
) -> (statuses: Vec<MigrationParityJobStatus>)
    ensures
        status_views(statuses@) == ordered_below(all_reports(jobs@, directory), 5),
{
    let ghost reports = all_reports(jobs@, directory);
    let ghost given = directory;
    let mut directory = directory;
    let mut statuses: Vec<MigrationParityJobStatus> = Vec::new();
    let mut rank: u8 = 0;
    assert(status_views(statuses@) =~= ordered_below(reports, 0));
    while rank < 5
        invariant
            rank <= 5,
            reports == all_reports(jobs@, given),
            status_views(statuses@) == ordered_below(reports, rank as nat),
            match given {
                Some(status) => if status.id.rank() >= rank {
                    directory == given
                } else {
                    directory is None
                },
                None => directory is None,
            },
        decreases 5 - rank,
    {
        let ghost before = status_views(statuses@);
        let mut position: usize = 0;
        assert(job_reports(jobs@).take(0) =~= Seq::empty());
        assert(before + of_rank(job_reports(jobs@).take(0), rank as nat) =~= before);
        while position < jobs.len()
            invariant
                position <= jobs.len(),
                status_views(statuses@) == before + of_rank(
                    job_reports(jobs@).take(position as int),
                    rank as nat,
                ),
            decreases jobs.len() - position,
        {
            let job = &jobs[position];
            let id = parity_id(job.id);
            proof {
                let longer = job_reports(jobs@).take(position + 1);
                assert(longer.drop_last() =~= job_reports(jobs@).take(position as int));
                assert(longer.last() == job_report(jobs@[position as int]));
            }
            if id.position() == rank {
                let ghost shorter = statuses@;
                let status = MigrationParityJobStatus {
                    id,
                    mode: parity_mode(job.mode),
                    state: parity_state(&job.state),
                };
                statuses.push(status);
                assert(status_views(statuses@) =~= status_views(shorter).push(status@));
            }
            position = position + 1;
        }
        assert(job_reports(jobs@).take(jobs@.len() as int) =~= job_reports(jobs@));
        let here = match &directory {
            Some(status) => status.id.position() == rank,
            None => false,
        };
        proof {
            if given is Some {
                assert(reports.drop_last() =~= job_reports(jobs@));
                assert(reports.last() == given->0@);
            }
        }
        if here {
            let ghost shorter = statuses@;
            if let Some(status) = directory.take() {
                statuses.push(status);
                assert(status_views(statuses@) =~= status_views(shorter).push(status@));
            }
        }
        rank = rank + 1;
        assert(status_views(statuses@) =~= ordered_below(reports, rank as nat));
    }
    statuses
}

proof fn lemma_of_rank(statuses: Seq<ParityStatus>, rank: nat)
    ensures
        forall|i: int|
            0 <= i < of_rank(statuses, rank).len() ==> (#[trigger] of_rank(
                statuses,
                rank,
            )[i]).id.rank() == rank,
        forall|i: int|
            0 <= i < statuses.len() && (#[trigger] statuses[i]).id.rank() == rank ==> of_rank(
                statuses,
                rank,
            ).contains(statuses[i]),
    decreases statuses.len(),
{
    if statuses.len() > 0 {
        let shorter = statuses.drop_last();
        lemma_of_rank(shorter, rank);
        let found = of_rank(statuses, rank);
        let before = of_rank(shorter, rank);
        assert forall|i: int| 0 <= i < statuses.len() && (#[trigger] statuses[i]).id.rank()
            == rank implies found.contains(statuses[i]) by {
            if i < shorter.len() {
                assert(shorter[i] == statuses[i]);
                let at = before.index_of(statuses[i]);
                assert(found[at] == statuses[i]);
            } else {
                assert(found[before.len() as int] == statuses[i]);
            }
        }
    }
}

/// The reported statuses stand in the order of their migrations, and none is left out.
pub proof fn law_statuses_are_ordered(statuses: Seq<ParityStatus>, bound: nat)
    ensures
        forall|i: int, j: int|
            0 <= i <= j < ordered_below(statuses, bound).len() ==> (#[trigger] ordered_below(
                statuses,
                bound,
            )[i]).id.rank() <= (#[trigger] ordered_below(statuses, bound)[j]).id.rank() < bound,
        forall|i: int|
            0 <= i < statuses.len() && (#[trigger] statuses[i]).id.rank() < bound
                ==> ordered_below(statuses, bound).contains(statuses[i]),
    decreases bound,
{
    if bound > 0 {
        let rank = (bound - 1) as nat;
        law_statuses_are_ordered(statuses, rank);
        lemma_of_rank(statuses, rank);
        let before = ordered_below(statuses, rank);
        let tail = of_rank(statuses, rank);
        let all = ordered_below(statuses, bound);
        assert forall|i: int, j: int| 0 <= i <= j < all.len() implies (#[trigger] all[i]).id.rank()
            <= (#[trigger] all[j]).id.rank() < bound by {
            if j < before.len() {
                assert(before[i].id.rank() <= before[j].id.rank());
            } else {
                assert(tail[j - before.len()] == all[j]);
                if i < before.len() {
                    assert(before[i].id.rank() <= before[i].id.rank() < rank);
                } else {
                    assert(tail[i - before.len()] == all[i]);
                }
            }
        }
        assert forall|i: int| 0 <= i < statuses.len() && (#[trigger] statuses[i]).id.rank()
            < bound implies all.contains(statuses[i]) by {
            if statuses[i].id.rank() < rank {
                let at = before.index_of(statuses[i]);
                assert(all[at] == statuses[i]);
            } else {
                let at = tail.index_of(statuses[i]);
                assert(all[before.len() + at] == statuses[i]);
            }
        }
    }
}

/// A report says of a job what the job says of itself: its migration, its mode, its state,
/// its stage, its rows and its failure, and of its resume key whether there is one.
pub proof fn law_reports_say_what_jobs_say(job: MigrationJob)
    ensures
        job_report(job).state.rows() == job.state@.rows(),
        match job.state@ {
            JobState::Running { stage, resume_after_key, processed_rows } => job_report(job).state
                == (ParityState::Running {
                stage: stage_report(stage),
                processed_rows,
                has_resume_key: resume_after_key is Some,
            }),
            JobState::Completed { processed_rows } => job_report(job).state == (
            ParityState::Completed { processed_rows }),
            JobState::Failed { stage, resume_after_key, processed_rows, error } => job_report(
                job,
            ).state == (ParityState::Failed {
                stage: stage_report(stage),
                processed_rows,
                has_resume_key: resume_after_key is Some,
                error,
            }),
        },
        job_report(job).mode is Background <==> job.mode is Background,
        job_report(job).mode is BlockingStartup <==> job.mode is BlockingStartup,
        job_report(job).id is GraphFormatV1Rewrite <==> job.id is GraphFormatV1Rewrite,
        job_report(job).id is LegacyVectorPropertyMaterialization <==> job.id
            is LegacyVectorPropertyMaterialization,
        job_report(job).id is LegacyVectorPhysicalCleanup <==> job.id
            is LegacyVectorPhysicalCleanup,
        job_report(job).id is GraphFormatV1Cleanup <==> job.id is GraphFormatV1Cleanup,
{
}

/// A stage is reported under its own name.
pub proof fn law_stages_are_reported_as_they_are(stage: MigrationStage)
    ensures
        stage_report(stage) is PropertyIndexes <==> stage is PropertyIndexes,
        stage_report(stage) is NodeProperties <==> stage is NodeProperties,
        stage_report(stage) is LegacyEdgePairs <==> stage is LegacyEdgePairs,
        stage_report(stage) is EdgeEndpoints <==> stage is EdgeEndpoints,
        stage_report(stage) is FenceLegacyVectorSources <==> stage is FenceLegacyVectorSources,
        stage_report(stage) is LegacyVectorHotRows <==> stage is LegacyVectorHotRows,
        stage_report(stage) is LegacyVectorLayer0Rows <==> stage is LegacyVectorLayer0Rows,
        stage_report(stage) is LegacyVectorCoreRows <==> stage is LegacyVectorCoreRows,
        stage_report(stage) is LegacyVectorDefinitions <==> stage is LegacyVectorDefinitions,
        stage_report(stage) is ReleaseLegacyVectorReservations <==> stage
            is ReleaseLegacyVectorReservations,
{
}

/// Statuses come in one order of migrations: the rewrite, the materialization, the vector
/// cleanup, the graph cleanup, the vector directory.
pub proof fn law_migrations_are_reported_in_order()
    ensures
        MigrationParityId::GraphFormatV1Rewrite.rank()
            < MigrationParityId::LegacyVectorPropertyMaterialization.rank()
            < MigrationParityId::LegacyVectorPhysicalCleanup.rank()
            < MigrationParityId::GraphFormatV1Cleanup.rank()
            < MigrationParityId::VectorSimHashDirectoryV1.rank() < 5,
{
}

/// The statuses of one migration are those that belong to it, in the order in which they
/// came.
pub proof fn law_statuses_of_a_migration_keep_their_order(statuses: Seq<ParityStatus>, rank: nat)
    ensures
        of_rank(statuses, rank) == statuses.filter(
            |status: ParityStatus| status.id.rank() == rank,
        ),
    decreases statuses.len(),
{
    reveal(Seq::filter);
    if statuses.len() > 0 {
        law_statuses_of_a_migration_keep_their_order(statuses.drop_last(), rank);
    }
}

proof fn lemma_one_more_status(statuses: Seq<ParityStatus>, bound: nat)
    requires
        statuses.len() > 0,
    ensures
        ordered_below(statuses, bound).to_multiset() == if statuses.last().id.rank() < bound {
            ordered_below(statuses.drop_last(), bound).to_multiset().insert(statuses.last())
        } else {
            ordered_below(statuses.drop_last(), bound).to_multiset()
        },
    decreases bound,
{
    broadcast use vstd::seq_lib::group_to_multiset_ensures;

    if bound > 0 {
        let rank = (bound - 1) as nat;
        let before = statuses.drop_last();
        lemma_one_more_status(statuses, rank);
        vstd::seq_lib::lemma_multiset_commutative(
            ordered_below(statuses, rank),
            of_rank(statuses, rank),
        );
        vstd::seq_lib::lemma_multiset_commutative(
            ordered_below(before, rank),
            of_rank(before, rank),
        );
        assert(ordered_below(statuses, bound).to_multiset() =~= if statuses.last().id.rank()
            < bound {
            ordered_below(before, bound).to_multiset().insert(statuses.last())
        } else {
            ordered_below(before, bound).to_multiset()
        });
    }
}

/// Ordering statuses neither loses nor repeats one.
pub proof fn law_every_status_is_reported_once(statuses: Seq<ParityStatus>)
    ensures
        ordered_below(statuses, 5).to_multiset() == statuses.to_multiset(),
    decreases statuses.len(),
{
    broadcast use vstd::seq_lib::group_to_multiset_ensures;

    if statuses.len() > 0 {
        let before = statuses.drop_last();
        law_every_status_is_reported_once(before);
        lemma_one_more_status(statuses, 5);
        assert(statuses =~= before.push(statuses.last()));
        assert(statuses.last().id.rank() < 5);
    } else {
        reveal_with_fuel(ordered_below, 6);
        assert(ordered_below(statuses, 5) =~= statuses);
    }
}

/// All jobs are reported, in their order, and behind them the vector directory, if there is
/// one.
pub proof fn law_reports_cover_jobs_and_directory(
    jobs: Seq<MigrationJob>,
    status: MigrationParityJobStatus,
    position: int,
)
    requires
        0 <= position < jobs.len(),
    ensures
        all_reports(jobs, None).len() == jobs.len(),
        all_reports(jobs, Some(status)).len() == jobs.len() + 1,
        all_reports(jobs, None)[position] == job_report(jobs[position]),
        all_reports(jobs, Some(status))[position] == job_report(jobs[position]),
        all_reports(jobs, Some(status)).last() == status@,
        status@.id == status.id && status@.mode == status.mode && status@.state == status.state@,
{
}

/// A reported state is seen as it is.
pub proof fn law_reported_states_are_seen_as_they_are(state: MigrationParityState)
    ensures
        match state {
            MigrationParityState::Running { stage, processed_rows, has_resume_key } => state@ == (
            ParityState::Running { stage, processed_rows, has_resume_key }),
            MigrationParityState::Completed { processed_rows } => state@ == (
            ParityState::Completed { processed_rows }),
            MigrationParityState::Failed { stage, processed_rows, has_resume_key, error } => state@
                == (ParityState::Failed { stage, processed_rows, has_resume_key, error: error@ }),
        },
        match state {
            MigrationParityState::Running { processed_rows, .. } => state@.rows()
                == processed_rows,
            MigrationParityState::Completed { processed_rows } => state@.rows() == processed_rows,
            MigrationParityState::Failed { processed_rows, .. } => state@.rows() == processed_rows,
        },
{
}

} // verus!
