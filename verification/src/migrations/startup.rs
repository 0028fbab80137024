//! The migrations that a writer runs before it opens.
use vstd::prelude::*;

use super::catalog::{
    legacy_row_action, legacy_row_retirement, LegacyDefinitionRow, LegacyRowAction,
    LegacyRowRetirement,
};
use super::failpoints::MigrationFailpoint;
use super::job::{MigrationId, MigrationJob, MigrationMode};
use super::markers::{legacy_catalog_metadata_names, ready_value, ReadinessMarker};
use super::keys::scoped_metadata_key;
use crate::error::HelixDbError;
use crate::mode::HelixDbMode;

verus! {

/// Decides whether a job has to be created; one that exists is left as it is.
pub fn job_to_create(exists: bool, id: MigrationId, mode: MigrationMode) -> (job: Option<
    MigrationJob,
>)
    ensures
        job is None <==> exists,
        job matches Some(job) ==> job.id == id && job.mode == mode && job.state@
            == super::job::JobState::initial(id),
{
    if exists {
        None
    } else {
        Some(MigrationJob::new(id, mode))
    }
}

/// Whether a stored job has completed; a missing one has not.
pub fn migration_completed(job: Option<&MigrationJob>) -> (completed: bool)
    ensures
        completed == (job matches Some(job) && job.state@ is Completed),
{
    match job {
        Some(job) => job.is_completed(),
        None => false,
    }
}

/// Rows that a stored job has processed; a missing one has processed none.
pub fn migration_processed_rows(job: Option<&MigrationJob>) -> (rows: u64)
    ensures
        rows == match job {
            Some(job) => job.state@.rows(),
            None => 0,
        },
{
    match job {
        Some(job) => job.state.processed_rows(),
        None => 0,
    }
}

/// A migration that the writer completes before it opens.
#[derive(Debug, Clone, Copy, PartialEq, Eq, Structural)]
pub enum BlockingMigration {
    GraphRewrite,
    VectorProperties,
    VectorCleanup,
}

impl BlockingMigration {
    /// The job of the migration.
    pub open spec fn id_spec(self) -> MigrationId {
        match self {
            BlockingMigration::GraphRewrite => MigrationId::GraphFormatV1Rewrite,
            BlockingMigration::VectorProperties => MigrationId::LegacyVectorPropertyMaterialization,
            BlockingMigration::VectorCleanup => MigrationId::LegacyVectorPhysicalCleanup,
        }
    }

    /// The job of the migration.
    pub fn id(self) -> (id: MigrationId)
        ensures
            id == self.id_spec(),
    {
        match self {
            BlockingMigration::GraphRewrite => MigrationId::GraphFormatV1Rewrite,
            BlockingMigration::VectorProperties => MigrationId::LegacyVectorPropertyMaterialization,
            BlockingMigration::VectorCleanup => MigrationId::LegacyVectorPhysicalCleanup,
        }
    }

    /// The message about a turn without progress.
    pub open spec fn stall_message(self) -> Seq<char> {
        match self {
            BlockingMigration::GraphRewrite => "blocking graph-format migration did not advance"@,
            BlockingMigration::VectorProperties =>
                "blocking legacy vector-property materialization did not advance"@,
            BlockingMigration::VectorCleanup =>
                "blocking legacy vector physical cleanup did not advance"@,
        }
    }

    pub(crate) fn stall(self) -> (error: HelixDbError)
        ensures
            error.is_config(self.stall_message()),
    {
        match self {
            BlockingMigration::GraphRewrite => HelixDbError::Config(
                "blocking graph-format migration did not advance".to_owned(),
            ),
            BlockingMigration::VectorProperties => HelixDbError::Config(
                "blocking legacy vector-property materialization did not advance".to_owned(),
            ),
            BlockingMigration::VectorCleanup => HelixDbError::Config(
                "blocking legacy vector physical cleanup did not advance".to_owned(),
            ),
        }
    }
}

/// What a writer does next before it opens.
#[derive(Debug, Clone, Copy, PartialEq, Eq, Structural)]
pub enum StartupAction {
    /// Create the job unless it exists.
    EnsureJob(MigrationId, MigrationMode),
    /// Find out whether the job has completed.
    CheckCompleted(BlockingMigration),
    /// Move the identity allocators above every identity in use.
    ReserveAllocators,
    /// Run one turn of the job.
    RunTurn(BlockingMigration),
    /// Publish the readiness of the graph format unless it is published.
    PublishGraphReady,
    /// Load the catalog of legacy vector properties.
    LoadVectorProperties,
    /// Cross an injectable boundary.
    Cross(MigrationFailpoint),
    /// Nothing is left to do.
    Finish,
}

/// What came of an action.
#[derive(Debug, Clone, Copy, PartialEq, Eq, Structural)]
pub enum StartupEvent {
    /// The action was done.
    Done,
    /// Whether the job has completed.
    Completed(bool),
    /// Whether the turn made progress.
    Advanced(bool),
}

/// Where the migrations before opening stand.
#[derive(Debug, Clone, Copy, PartialEq, Eq, Structural)]
pub enum StartupMigration {
    EnsureRewrite,
    InspectRewrite,
    Reserve,
    CheckRewrite,
    TurnRewrite,
    PublishGraph,
    EnsureProperties,
    LoadProperties,
    CheckProperties,
    TurnProperties,
    BeforeCleanup,
    EnsureCleanup,
    AfterCleanup,
    Finished,
}

impl StartupMigration {
    /// The action that the state calls for.
    pub open spec fn action_spec(self) -> StartupAction {
        match self {
            StartupMigration::EnsureRewrite => StartupAction::EnsureJob(
                MigrationId::GraphFormatV1Rewrite,
                MigrationMode::BlockingStartup,
            ),
            StartupMigration::InspectRewrite => StartupAction::CheckCompleted(
                BlockingMigration::GraphRewrite,
            ),
            StartupMigration::Reserve => StartupAction::ReserveAllocators,
            StartupMigration::CheckRewrite => StartupAction::CheckCompleted(
                BlockingMigration::GraphRewrite,
            ),
            StartupMigration::TurnRewrite => StartupAction::RunTurn(
                BlockingMigration::GraphRewrite,
            ),
            StartupMigration::PublishGraph => StartupAction::PublishGraphReady,
            StartupMigration::EnsureProperties => StartupAction::EnsureJob(
                MigrationId::LegacyVectorPropertyMaterialization,
                MigrationMode::BlockingStartup,
            ),
            StartupMigration::LoadProperties => StartupAction::LoadVectorProperties,
            StartupMigration::CheckProperties => StartupAction::CheckCompleted(
                BlockingMigration::VectorProperties,
            ),
            StartupMigration::TurnProperties => StartupAction::RunTurn(
                BlockingMigration::VectorProperties,
            ),
            StartupMigration::BeforeCleanup => StartupAction::Cross(
                MigrationFailpoint::CleanupEnqueueBefore,
            ),
            StartupMigration::EnsureCleanup => StartupAction::EnsureJob(
                MigrationId::GraphFormatV1Cleanup,
                MigrationMode::Background,
            ),
            StartupMigration::AfterCleanup => StartupAction::Cross(
                MigrationFailpoint::CleanupEnqueueAfter,
            ),
            StartupMigration::Finished => StartupAction::Finish,
        }
    }

    /// Whether an event answers the action of the state.
    pub open spec fn answers(self, event: StartupEvent) -> bool {
        match self.action_spec() {
            StartupAction::CheckCompleted(_) => event is Completed,
            StartupAction::RunTurn(_) => event is Advanced,
            _ => event is Done,
        }
    }

    /// The state after an event.
    pub open spec fn after(self, event: StartupEvent) -> StartupMigration {
        match self {
            StartupMigration::EnsureRewrite => StartupMigration::InspectRewrite,
            StartupMigration::InspectRewrite => if event == StartupEvent::Completed(true) {
                StartupMigration::CheckRewrite
            } else {
                StartupMigration::Reserve
            },
            StartupMigration::Reserve => StartupMigration::CheckRewrite,
            StartupMigration::CheckRewrite => if event == StartupEvent::Completed(true) {
                StartupMigration::PublishGraph
            } else {
                StartupMigration::TurnRewrite
            },
            StartupMigration::TurnRewrite => StartupMigration::CheckRewrite,
            StartupMigration::PublishGraph => StartupMigration::EnsureProperties,
            StartupMigration::EnsureProperties => StartupMigration::LoadProperties,
            StartupMigration::LoadProperties => StartupMigration::CheckProperties,
            StartupMigration::CheckProperties => if event == StartupEvent::Completed(true) {
                StartupMigration::BeforeCleanup
            } else {
                StartupMigration::TurnProperties
            },
            StartupMigration::TurnProperties => StartupMigration::CheckProperties,
            StartupMigration::BeforeCleanup => StartupMigration::EnsureCleanup,
            StartupMigration::EnsureCleanup => StartupMigration::AfterCleanup,
            StartupMigration::AfterCleanup => StartupMigration::Finished,
            StartupMigration::Finished => StartupMigration::Finished,
        }
    }

    /// The migration whose turn the state runs.
    pub open spec fn turn(self) -> Option<BlockingMigration> {
        match self {
            StartupMigration::TurnRewrite => Some(BlockingMigration::GraphRewrite),
            StartupMigration::TurnProperties => Some(BlockingMigration::VectorProperties),
            _ => None,
        }
    }

    /// How far the state is on the way to opening; a loop keeps its place.
    pub open spec fn place(self) -> int {
        match self {
            StartupMigration::EnsureRewrite => 0,
            StartupMigration::InspectRewrite => 1,
            StartupMigration::Reserve => 2,
            StartupMigration::CheckRewrite => 3,
            StartupMigration::TurnRewrite => 3,
            StartupMigration::PublishGraph => 4,
            StartupMigration::EnsureProperties => 5,
            StartupMigration::LoadProperties => 6,
            StartupMigration::CheckProperties => 7,
            StartupMigration::TurnProperties => 7,
            StartupMigration::BeforeCleanup => 8,
            StartupMigration::EnsureCleanup => 9,
            StartupMigration::AfterCleanup => 10,
            StartupMigration::Finished => 11,
        }
    }

    /// Where the migrations start.
    pub fn start() -> (state: Self)
        ensures
            state == StartupMigration::EnsureRewrite,
    {
        StartupMigration::EnsureRewrite
    }

    /// What to do next.
    pub fn action(self) -> (action: StartupAction)
        ensures
            action == self.action_spec(),
    {
        match self {
            StartupMigration::EnsureRewrite => StartupAction::EnsureJob(
                MigrationId::GraphFormatV1Rewrite,
                MigrationMode::BlockingStartup,
            ),
            StartupMigration::InspectRewrite | StartupMigration::CheckRewrite =>
                StartupAction::CheckCompleted(BlockingMigration::GraphRewrite),
            StartupMigration::Reserve => StartupAction::ReserveAllocators,
            StartupMigration::TurnRewrite => StartupAction::RunTurn(
                BlockingMigration::GraphRewrite,
            ),
            StartupMigration::PublishGraph => StartupAction::PublishGraphReady,
            StartupMigration::EnsureProperties => StartupAction::EnsureJob(
                MigrationId::LegacyVectorPropertyMaterialization,
                MigrationMode::BlockingStartup,
            ),
            StartupMigration::LoadProperties => StartupAction::LoadVectorProperties,
            StartupMigration::CheckProperties => StartupAction::CheckCompleted(
                BlockingMigration::VectorProperties,
            ),
            StartupMigration::TurnProperties => StartupAction::RunTurn(
                BlockingMigration::VectorProperties,
            ),
            StartupMigration::BeforeCleanup => StartupAction::Cross(
                MigrationFailpoint::CleanupEnqueueBefore,
            ),
            StartupMigration::EnsureCleanup => StartupAction::EnsureJob(
                MigrationId::GraphFormatV1Cleanup,
                MigrationMode::Background,
            ),
            StartupMigration::AfterCleanup => StartupAction::Cross(
                MigrationFailpoint::CleanupEnqueueAfter,
            ),
            StartupMigration::Finished => StartupAction::Finish,
        }
    }

    /// Moves on with what came of the action of this state.
    ///
    /// A turn that makes no progress ends the migration.
    pub fn next(self, event: StartupEvent) -> (state: Result<Self, HelixDbError>)
        requires
            self.answers(event),
        ensures
            if event == StartupEvent::Advanced(false) {
                state matches Err(error) && error.is_config(self.turn()->0.stall_message())
            } else {
                state matches Ok(state) && state == self.after(event)
            },
    {
        let answered = match event {
            StartupEvent::Done => true,
            StartupEvent::Completed(completed) => completed,
            StartupEvent::Advanced(advanced) => advanced,
        };
        match self {
            StartupMigration::EnsureRewrite => Ok(StartupMigration::InspectRewrite),
            StartupMigration::InspectRewrite => if answered {
                Ok(StartupMigration::CheckRewrite)
            } else {
                Ok(StartupMigration::Reserve)
            },
            StartupMigration::Reserve => Ok(StartupMigration::CheckRewrite),
            StartupMigration::CheckRewrite => if answered {
                Ok(StartupMigration::PublishGraph)
            } else {
                Ok(StartupMigration::TurnRewrite)
            },
            StartupMigration::TurnRewrite => if answered {
                Ok(StartupMigration::CheckRewrite)
            } else {
                Err(BlockingMigration::GraphRewrite.stall())
            },
            StartupMigration::PublishGraph => Ok(StartupMigration::EnsureProperties),
            StartupMigration::EnsureProperties => Ok(StartupMigration::LoadProperties),
            StartupMigration::LoadProperties => Ok(StartupMigration::CheckProperties),
            StartupMigration::CheckProperties => if answered {
                Ok(StartupMigration::BeforeCleanup)
            } else {
                Ok(StartupMigration::TurnProperties)
            },
            StartupMigration::TurnProperties => if answered {
                Ok(StartupMigration::CheckProperties)
            } else {
                Err(BlockingMigration::VectorProperties.stall())
            },
            StartupMigration::BeforeCleanup => Ok(StartupMigration::EnsureCleanup),
            StartupMigration::EnsureCleanup => Ok(StartupMigration::AfterCleanup),
            StartupMigration::AfterCleanup => Ok(StartupMigration::Finished),
            StartupMigration::Finished => Ok(StartupMigration::Finished),
        }
    }
}

/// The migrations before opening never go back, and stay in place only while a job has
/// turns left or nothing is left to do.
pub proof fn law_startup_never_goes_back(state: StartupMigration, event: StartupEvent)
    requires
        state.answers(event),
    ensures
        state.after(event).place() >= state.place(),
        state.after(event).place() == state.place() ==> state.turn() is Some || event
            == StartupEvent::Completed(false) || state is Finished,
{
}

/// The graph format is published as ready, and the background cleanup is enqueued, only
/// right behind the answer that the job before them has completed.
pub proof fn law_startup_waits_for_completion(state: StartupMigration, event: StartupEvent)
    requires
        state.answers(event),
        state.after(event) != state,
    ensures
        state.after(event) is PublishGraph ==> state is CheckRewrite && event
            == StartupEvent::Completed(true),
        state.after(event) is BeforeCleanup ==> state is CheckProperties && event
            == StartupEvent::Completed(true),
        state.after(event) is EnsureCleanup ==> state is BeforeCleanup,
{
}

/// What the migration of definitions does with its prerequisites.
#[derive(Debug, Clone, Copy, PartialEq, Eq, Structural)]
pub enum DefinitionGate {
    /// The definitions have been migrated: refresh the catalog and publish the schema.
    AlreadyMigrated,
    /// Reserve legacy vector namespaces, then walk the legacy rows.
    Proceed,
}

/// Decides whether legacy definitions can be migrated now.
pub fn gate_definition_migration(
    mode: HelixDbMode,
    index_ready: bool,
    graph_ready: bool,
    properties_materialized: bool,
) -> (gate: Result<DefinitionGate, HelixDbError>)
    ensures
        if mode is ReadOnly {
            gate matches Err(error) && mode.is_refusal(error)
        } else if index_ready {
            gate == Ok::<DefinitionGate, HelixDbError>(DefinitionGate::AlreadyMigrated)
        } else if !graph_ready {
            gate matches Err(error) && error.is_migration_required(
                "graph rewrite must complete before legacy index definitions migrate"@,
            )
        } else if !properties_materialized {
            gate matches Err(error) && error.is_migration_required(
                "legacy vector properties must be materialized before index definitions migrate"@,
            )
        } else {
            gate == Ok::<DefinitionGate, HelixDbError>(DefinitionGate::Proceed)
        },
{
    match mode.require_writer() {
        Ok(_) => {},
        Err(error) => {
            return Err(error);
        },
    }
    if index_ready {
        return Ok(DefinitionGate::AlreadyMigrated);
    }
    if !graph_ready {
        return Err(
            HelixDbError::MigrationRequired {
                reason: "graph rewrite must complete before legacy index definitions migrate"
                    .to_owned(),
            },
        );
    }
    if !properties_materialized {
        return Err(
            HelixDbError::MigrationRequired {
                reason:
                    "legacy vector properties must be materialized before index definitions migrate"
                    .to_owned(),
            },
        );
    }
    Ok(DefinitionGate::Proceed)
}

/// What the walk over the legacy rows does next.
#[derive(Debug)]
pub enum WalkAction {
    /// Make the current catalog agree with the row at this position.
    Converge { position: usize, action: LegacyRowAction },
    /// Take the converged row at this position out of the legacy catalog.
    Retire { position: usize, retirement: LegacyRowRetirement },
    /// Every row has been retired: run the physical vector cleanup.
    Finished,
}

/// A walk over the legacy rows: every row converges before any row is retired.
#[derive(Debug)]
pub struct DefinitionWalk {
    rows: Vec<LegacyDefinitionRow>,
    converged: usize,
    retired: usize,
}

impl DefinitionWalk {
    #[verifier::type_invariant]
    spec fn is_in_order(self) -> bool {
        &&& self.converged <= self.rows@.len()
        &&& self.retired <= self.rows@.len()
        &&& self.retired > 0 ==> self.converged == self.rows@.len()
    }

    /// The rows that are walked.
    pub closed spec fn rows(self) -> Seq<LegacyDefinitionRow> {
        self.rows@
    }

    /// Number of rows handed out for convergence.
    pub closed spec fn converged(self) -> nat {
        self.converged as nat
    }

    /// Number of rows handed out for retirement.
    pub closed spec fn retired(self) -> nat {
        self.retired as nat
    }

    /// Starts a walk.
    pub fn new(rows: Vec<LegacyDefinitionRow>) -> (walk: Self)
        ensures
            walk.rows() == rows@,
            walk.converged() == 0,
            walk.retired() == 0,
    {
        DefinitionWalk { rows, converged: 0, retired: 0 }
    }

    /// Hands out the next action, or the failure of the row that is next.
    ///
    /// A row is handed out only after the action before it has been carried out.
    pub fn next(&mut self) -> (action: Result<WalkAction, HelixDbError>)
        ensures
            final(self).rows() == old(self).rows(),
            old(self).converged() <= old(self).rows().len(),
            old(self).retired() <= old(self).rows().len(),
            old(self).retired() > 0 ==> old(self).converged() == old(self).rows().len(),
            (final(self).converged(), final(self).retired()) == if action is Ok {
                walk_step(
                    old(self).rows().len(),
                    (old(self).converged(), old(self).retired()),
                )
            } else {
                (old(self).converged(), old(self).retired())
            },
            if old(self).converged() < old(self).rows().len() {
                walk_converges(
                    old(self).rows()[old(self).converged() as int],
                    old(self).converged(),
                    action,
                )
            } else if old(self).retired() < old(self).rows().len() {
                walk_retires(
                    old(self).rows()[old(self).retired() as int],
                    old(self).retired(),
                    action,
                )
            } else {
                action matches Ok(WalkAction::Finished)
            },
    {
        proof {
            use_type_invariant(&*self);
        }
        if self.converged < self.rows.len() {
            let position: usize = self.converged;
            match legacy_row_action(&self.rows[position]) {
                Ok(action) => {
                    self.converged = position + 1;
                    Ok(WalkAction::Converge { position, action })
                },
                Err(error) => Err(error),
            }
        } else if self.retired < self.rows.len() {
            let position: usize = self.retired;
            match legacy_row_retirement(&self.rows[position]) {
                Ok(retirement) => {
                    self.retired = position + 1;
                    Ok(WalkAction::Retire { position, retirement })
                },
                Err(error) => Err(error),
            }
        } else {
            Ok(WalkAction::Finished)
        }
    }
}

/// Whether the outcome makes the current catalog agree with a row.
pub open spec fn walk_converges(
    row: LegacyDefinitionRow,
    position: nat,
    outcome: Result<WalkAction, HelixDbError>,
) -> bool {
    match outcome {
        Ok(WalkAction::Converge { position: at, action }) => at == position
            && super::catalog::is_row_action(row, Ok(action)),
        Ok(_) => false,
        Err(error) => super::catalog::is_row_action(row, Err(error)),
    }
}

/// Whether the outcome takes a row out of the legacy catalog.
pub open spec fn walk_retires(
    row: LegacyDefinitionRow,
    position: nat,
    outcome: Result<WalkAction, HelixDbError>,
) -> bool {
    match outcome {
        Ok(WalkAction::Retire { position: at, retirement }) => at == position
            && super::catalog::is_row_retirement(row, Ok(retirement)),
        Ok(_) => false,
        Err(error) => super::catalog::is_row_retirement(row, Err(error)),
    }
}

/// What the publication of the index catalog writes and deletes.
#[derive(Debug)]
pub struct CatalogPublication {
    pub marker_key: Vec<u8>,
    pub marker_value: Vec<u8>,
    pub deleted_keys: Vec<Vec<u8>>,
}

/// Decides whether the index catalog can be published as migrated, and with which rows.
pub fn plan_catalog_publication(
    legacy_catalog_empty: bool,
    cleanup_completed: bool,
    scope_prefix: &[u8],
) -> (publication: Result<CatalogPublication, HelixDbError>)
    ensures
        if !legacy_catalog_empty {
            publication matches Err(error) && error.is_migration_required(
                "legacy definition rows remain after V2 convergence"@,
            )
        } else if !cleanup_completed {
            publication matches Err(error) && error.is_migration_required(
                "legacy vector physical cleanup is not durably complete"@,
            )
        } else {
            publication matches Ok(publication) && {
                &&& publication.marker_key@ == super::keys::metadata_key(
                    scope_prefix@,
                    vstd::utf8::encode_utf8(ReadinessMarker::IndexV2Catalog.name_spec()),
                )
                &&& super::markers::is_ready_value(publication.marker_value@)
                &&& publication.deleted_keys@.len() == 3
                &&& publication.deleted_keys@[0]@ == super::keys::metadata_key(
                    scope_prefix@,
                    vstd::utf8::encode_utf8("dynamic_index_catalog_blob"@),
                )
                &&& publication.deleted_keys@[1]@ == super::keys::metadata_key(
                    scope_prefix@,
                    vstd::utf8::encode_utf8("dynamic_index_catalog_token"@),
                )
                &&& publication.deleted_keys@[2]@ == super::keys::metadata_key(
                    scope_prefix@,
                    vstd::utf8::encode_utf8("dynamic_index_manifest_ack_token"@),
                )
            }
        },
{
    if !legacy_catalog_empty {
        return Err(
            HelixDbError::MigrationRequired {
                reason: "legacy definition rows remain after V2 convergence".to_owned(),
            },
        );
    }
    if !cleanup_completed {
        return Err(
            HelixDbError::MigrationRequired {
                reason: "legacy vector physical cleanup is not durably complete".to_owned(),
            },
        );
    }
    let names = legacy_catalog_metadata_names();
    let mut deleted_keys: Vec<Vec<u8>> = Vec::new();
    deleted_keys.push(scoped_metadata_key(scope_prefix, names[0].as_bytes()));
    deleted_keys.push(scoped_metadata_key(scope_prefix, names[1].as_bytes()));
    deleted_keys.push(scoped_metadata_key(scope_prefix, names[2].as_bytes()));
    Ok(
        CatalogPublication {
            marker_key: ReadinessMarker::IndexV2Catalog.key(scope_prefix),
            marker_value: ready_value(),
            deleted_keys,
        },
    )
}

/// The counts of converged and retired rows after the next action is handed out.
pub open spec fn walk_step(row_count: nat, counts: (nat, nat)) -> (nat, nat) {
    if counts.0 < row_count {
        (counts.0 + 1, counts.1)
    } else if counts.1 < row_count {
        (counts.0, counts.1 + 1)
    } else {
        counts
    }
}

/// The counts of converged and retired rows after `steps` actions of a walk.
pub open spec fn walk_after(row_count: nat, steps: nat) -> (nat, nat)
    decreases steps,
{
    if steps == 0 {
        (0, 0)
    } else {
        walk_step(row_count, walk_after(row_count, (steps - 1) as nat))
    }
}

proof fn lemma_walk_after(row_count: nat, steps: nat)
    ensures
        walk_after(row_count, steps) == if steps <= row_count {
            (steps, 0nat)
        } else if steps <= 2 * row_count {
            (row_count, (steps - row_count) as nat)
        } else {
            (row_count, row_count)
        },
    decreases steps,
{
    if steps > 0 {
        lemma_walk_after(row_count, (steps - 1) as nat);
    }
}

/// A walk hands every row out for convergence before it hands any row out for
/// retirement: rows whose physical lanes collide stay until all their owners are active.
pub proof fn law_rows_converge_before_any_retires(
    row_count: nat,
    converging_step: nat,
    retiring_step: nat,
)
    requires
        walk_after(row_count, converging_step).0 < row_count,
        walk_after(row_count, retiring_step).0 == row_count,
    ensures
        converging_step < retiring_step,
{
    lemma_walk_after(row_count, converging_step);
    lemma_walk_after(row_count, retiring_step);
}

/// A walk hands out every row exactly once for convergence and once for retirement, in
/// the order of the rows, and is then finished.
pub proof fn law_walk_covers_every_row(row_count: nat, position: nat)
    requires
        position < row_count,
    ensures
        walk_after(row_count, position) == (position, 0nat),
        walk_after(row_count, row_count + position) == (row_count, position),
        walk_after(row_count, 2 * row_count) == (row_count, row_count),
{
    lemma_walk_after(row_count, position);
    lemma_walk_after(row_count, row_count + position);
    lemma_walk_after(row_count, 2 * row_count);
}

/// Whether states and events make up a run of the migrations before opening: it starts at
/// the beginning, each event answers the action of its state, and no turn is stuck.
pub open spec fn is_startup_run(
    states: Seq<StartupMigration>,
    events: Seq<StartupEvent>,
) -> bool {
    &&& states.len() == events.len() + 1
    &&& states[0] == StartupMigration::EnsureRewrite
    &&& forall|i: int|
        0 <= i < events.len() ==> states[i].answers(#[trigger] events[i]) && events[i]
            != StartupEvent::Advanced(false) && states[i + 1] == states[i].after(events[i])
}

/// Whether an action was performed before a point of a run.
pub open spec fn was_performed(
    states: Seq<StartupMigration>,
    before: int,
    action: StartupAction,
) -> bool {
    exists|i: int| 0 <= i < before && (#[trigger] states[i]).action_spec() == action
}

/// What has been performed by the time a run is at a state.
spec fn is_prepared(states: Seq<StartupMigration>, events: Seq<StartupEvent>, at: int) -> bool {
    let place = states[at].place();
    &&& place == 0 ==> at == 0
    &&& place >= 1 ==> was_performed(
        states,
        at,
        StartupAction::EnsureJob(
            MigrationId::GraphFormatV1Rewrite,
            MigrationMode::BlockingStartup,
        ),
    ) && at >= 1
    &&& place == 1 ==> at == 1
    &&& place >= 2 ==> at >= 2 && was_performed(
        states,
        at,
        StartupAction::CheckCompleted(BlockingMigration::GraphRewrite),
    ) && states[1] is InspectRewrite
    &&& place == 2 ==> at == 2
    &&& place >= 3 ==> was_performed(states, at, StartupAction::ReserveAllocators) || events[1]
        == StartupEvent::Completed(true)
    &&& place >= 5 ==> was_performed(states, at, StartupAction::PublishGraphReady)
    &&& place >= 6 ==> was_performed(
        states,
        at,
        StartupAction::EnsureJob(
            MigrationId::LegacyVectorPropertyMaterialization,
            MigrationMode::BlockingStartup,
        ),
    )
    &&& place >= 7 ==> was_performed(states, at, StartupAction::LoadVectorProperties)
    &&& place >= 8 ==> was_performed(
        states,
        at,
        StartupAction::CheckCompleted(BlockingMigration::VectorProperties),
    )
    &&& place >= 9 ==> was_performed(
        states,
        at,
        StartupAction::Cross(MigrationFailpoint::CleanupEnqueueBefore),
    )
    &&& place >= 10 ==> was_performed(
        states,
        at,
        StartupAction::EnsureJob(MigrationId::GraphFormatV1Cleanup, MigrationMode::Background),
    )
    &&& place >= 11 ==> was_performed(
        states,
        at,
        StartupAction::Cross(MigrationFailpoint::CleanupEnqueueAfter),
    )
}

proof fn lemma_performed_stays(
    states: Seq<StartupMigration>,
    before: int,
    later: int,
    action: StartupAction,
)
    requires
        0 <= before <= later <= states.len(),
        was_performed(states, before, action),
    ensures
        was_performed(states, later, action),
{
    let i = choose|i: int| 0 <= i < before && (#[trigger] states[i]).action_spec() == action;
    assert(states[i].action_spec() == action);
}

proof fn lemma_run_is_prepared(states: Seq<StartupMigration>, events: Seq<StartupEvent>, at: int)
    requires
        is_startup_run(states, events),
        0 <= at < states.len(),
    ensures
        is_prepared(states, events, at),
        at >= 1 ==> states[1] is InspectRewrite,
    decreases at,
{
    if at > 0 {
        let last = at - 1;
        lemma_run_is_prepared(states, events, last);
        assert(states[last].answers(events[last]) && states[at] == states[last].after(
            events[last],
        ));
        assert(states[0].answers(events[0]) && states[1] == states[0].after(events[0]));
        if at >= 2 {
            assert(states[1].answers(events[1]) && states[2] == states[1].after(events[1]));
        }
        assert(was_performed(states, at, states[last].action_spec())) by {
            assert(states[last].action_spec() == states[last].action_spec());
        }
        assert forall|action: StartupAction| #[trigger]
            was_performed(states, last, action) implies was_performed(states, at, action) by {
            lemma_performed_stays(states, last, at, action);
        }
    }
}

/// In every run before opening, each action waits for those that it builds on. The graph
/// is rewritten only with its job in place, and with the allocators moved unless the job had
/// completed before; it is published only behind the answer that the rewrite has completed.
/// Vector properties are materialized only behind that publication, with their job in place
/// and their catalog loaded. The cleanup is enqueued, for the background, only behind the
/// answer that they are materialized, and the run ends only behind all of this.
pub proof fn law_startup_runs_build_on_what_was_done(
    states: Seq<StartupMigration>,
    events: Seq<StartupEvent>,
    at: int,
)
    requires
        is_startup_run(states, events),
        0 <= at < states.len(),
    ensures
        ({
            let action = states[at].action_spec();
            let done = |earlier: StartupAction| was_performed(states, at, earlier);
            let ensured_rewrite = done(
                StartupAction::EnsureJob(
                    MigrationId::GraphFormatV1Rewrite,
                    MigrationMode::BlockingStartup,
                ),
            );
            let ensured_properties = done(
                StartupAction::EnsureJob(
                    MigrationId::LegacyVectorPropertyMaterialization,
                    MigrationMode::BlockingStartup,
                ),
            );
            let ensured_cleanup = done(
                StartupAction::EnsureJob(
                    MigrationId::GraphFormatV1Cleanup,
                    MigrationMode::Background,
                ),
            );
            &&& at == 0 ==> action == StartupAction::EnsureJob(
                MigrationId::GraphFormatV1Rewrite,
                MigrationMode::BlockingStartup,
            )
            &&& at == 1 ==> action == StartupAction::CheckCompleted(BlockingMigration::GraphRewrite)
            &&& action == StartupAction::ReserveAllocators ==> ensured_rewrite && at == 2
                && events[1] == StartupEvent::Completed(false)
            &&& action == StartupAction::RunTurn(BlockingMigration::GraphRewrite) ==> {
                &&& ensured_rewrite
                &&& done(StartupAction::ReserveAllocators) || events[1] == StartupEvent::Completed(
                    true,
                )
                &&& states[at - 1].action_spec() == StartupAction::CheckCompleted(
                    BlockingMigration::GraphRewrite,
                )
                &&& events[at - 1] == StartupEvent::Completed(false)
            }
            &&& action == StartupAction::PublishGraphReady ==> {
                &&& ensured_rewrite
                &&& states[at - 1].action_spec() == StartupAction::CheckCompleted(
                    BlockingMigration::GraphRewrite,
                )
                &&& events[at - 1] == StartupEvent::Completed(true)
            }
            &&& action == StartupAction::EnsureJob(
                MigrationId::LegacyVectorPropertyMaterialization,
                MigrationMode::BlockingStartup,
            ) ==> done(StartupAction::PublishGraphReady)
            &&& action == StartupAction::LoadVectorProperties ==> ensured_properties && done(
                StartupAction::PublishGraphReady,
            )
            &&& action == StartupAction::RunTurn(BlockingMigration::VectorProperties) ==> {
                &&& done(StartupAction::PublishGraphReady)
                &&& ensured_properties
                &&& done(StartupAction::LoadVectorProperties)
                &&& states[at - 1].action_spec() == StartupAction::CheckCompleted(
                    BlockingMigration::VectorProperties,
                )
                &&& events[at - 1] == StartupEvent::Completed(false)
            }
            &&& action == StartupAction::Cross(MigrationFailpoint::CleanupEnqueueBefore) ==> {
                &&& done(StartupAction::PublishGraphReady)
                &&& states[at - 1].action_spec() == StartupAction::CheckCompleted(
                    BlockingMigration::VectorProperties,
                )
                &&& events[at - 1] == StartupEvent::Completed(true)
            }
            &&& action == StartupAction::EnsureJob(
                MigrationId::GraphFormatV1Cleanup,
                MigrationMode::Background,
            ) ==> done(StartupAction::Cross(MigrationFailpoint::CleanupEnqueueBefore)) && done(
                StartupAction::PublishGraphReady,
            )
            &&& action == StartupAction::Cross(MigrationFailpoint::CleanupEnqueueAfter)
                ==> ensured_cleanup
            &&& action == StartupAction::Finish ==> {
                &&& ensured_rewrite
                &&& done(StartupAction::PublishGraphReady)
                &&& ensured_properties
                &&& done(StartupAction::LoadVectorProperties)
                &&& done(StartupAction::Cross(MigrationFailpoint::CleanupEnqueueBefore))
                &&& ensured_cleanup
                &&& done(StartupAction::Cross(MigrationFailpoint::CleanupEnqueueAfter))
            }
        }),
{
    lemma_run_is_prepared(states, events, at);
    if at > 0 {
        let last = at - 1;
        assert(states[last].answers(events[last]) && states[at] == states[last].after(
            events[last],
        ));
        assert(states[0].answers(events[0]) && states[1] == states[0].after(events[0]));
        if at >= 2 {
            assert(states[1].answers(events[1]) && states[2] == states[1].after(events[1]));
        }
    }
}

/// Before opening, only the jobs of the graph rewrite, of the vector properties and of the
/// background cleanup are created, turns are run only of the first two, and checks are
/// answered by whether a job has completed, turns by whether they advanced.
pub proof fn law_startup_touches_three_jobs(state: StartupMigration, event: StartupEvent)
    ensures
        match state.action_spec() {
            StartupAction::EnsureJob(id, mode) => (id is GraphFormatV1Rewrite && mode
                is BlockingStartup) || (id is LegacyVectorPropertyMaterialization && mode
                is BlockingStartup) || (id is GraphFormatV1Cleanup && mode is Background),
            StartupAction::CheckCompleted(migration) => !(migration is VectorCleanup) && (
            state.answers(event) <==> event is Completed),
            StartupAction::RunTurn(migration) => !(migration is VectorCleanup) && state.turn()
                == Some(migration) && (state.answers(event) <==> event is Advanced),
            _ => state.answers(event) <==> event is Done,
        },
        state.turn() is Some <==> state.action_spec() is RunTurn,
{
}

/// Each blocking migration has a job of its own and says which one does not advance.
pub proof fn law_blocking_migrations_are_told_apart()
    ensures
        BlockingMigration::GraphRewrite.id_spec() == MigrationId::GraphFormatV1Rewrite,
        BlockingMigration::VectorProperties.id_spec()
            == MigrationId::LegacyVectorPropertyMaterialization,
        BlockingMigration::VectorCleanup.id_spec() == MigrationId::LegacyVectorPhysicalCleanup,
        BlockingMigration::GraphRewrite.stall_message()
            == "blocking graph-format migration did not advance"@,
        BlockingMigration::VectorProperties.stall_message()
            == "blocking legacy vector-property materialization did not advance"@,
        BlockingMigration::VectorCleanup.stall_message()
            == "blocking legacy vector physical cleanup did not advance"@,
{
}

/// A job that is told to have completed is left behind, and one that is told not to have
/// completed is given a turn; every other answer leads to the action that is next.
pub proof fn law_startup_progresses(state: StartupMigration, event: StartupEvent)
    requires
        state.answers(event),
        event != StartupEvent::Advanced(false),
    ensures
        (state.action_spec() is CheckCompleted && event == StartupEvent::Completed(true))
            ==> state.after(event).place() > state.place(),
        (state.action_spec() matches StartupAction::CheckCompleted(migration) && !(state
            is InspectRewrite) && event == StartupEvent::Completed(false)) ==> state.after(
            event,
        ).action_spec() is RunTurn,
        state.action_spec() is RunTurn ==> state.after(event).action_spec()
            == StartupAction::CheckCompleted(state.action_spec()->RunTurn_0),
        (event is Done && !(state.action_spec() is Finish)) ==> state.after(event).place()
            == state.place() + 1,
{
}

/// A row that is next to converge is handed out at its own place with its own action, or
/// fails as it does by itself; it is neither retired nor passed over.
pub proof fn law_walks_hand_out_the_next_row(
    row: LegacyDefinitionRow,
    position: nat,
    outcome: Result<WalkAction, HelixDbError>,
)
    ensures
        walk_converges(row, position, outcome) <==> match outcome {
            Ok(WalkAction::Converge { position: at, action }) => at == position
                && super::catalog::is_row_action(row, Ok(action)),
            Ok(WalkAction::Retire { .. }) => false,
            Ok(WalkAction::Finished) => false,
            Err(error) => super::catalog::is_row_action(row, Err(error)),
        },
        walk_retires(row, position, outcome) <==> match outcome {
            Ok(WalkAction::Retire { position: at, retirement }) => at == position
                && super::catalog::is_row_retirement(row, Ok(retirement)),
            Ok(WalkAction::Converge { .. }) => false,
            Ok(WalkAction::Finished) => false,
            Err(error) => super::catalog::is_row_retirement(row, Err(error)),
        },
{
}

} // verus!
