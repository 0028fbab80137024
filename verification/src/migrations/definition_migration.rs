//! The migration of legacy index definitions, from its prerequisites to the complete schema.
use vstd::prelude::*;

use super::failpoints::MigrationFailpoint;
use super::job::{MigrationId, MigrationMode};
use super::startup::{BlockingMigration, DefinitionGate, WalkAction};
use crate::error::HelixDbError;

verus! {

/// What the migration of definitions does next.
#[derive(Debug, Clone, Copy, PartialEq, Eq, Structural)]
pub enum DefinitionAction {
    /// Decide whether the definitions can be migrated now.
    Gate,
    /// Reserve the legacy vector namespaces, all of them or none.
    Preflight,
    /// Take the next action of the walk over the legacy rows and carry it out.
    Walk,
    /// Create the job unless it exists.
    EnsureJob(MigrationId, MigrationMode),
    /// Load the catalog of legacy vector retirement.
    LoadVectorRetirement,
    /// Find out whether the job has completed.
    CheckCompleted(BlockingMigration),
    /// Run one turn of the job.
    RunTurn(BlockingMigration),
    /// Cross an injectable boundary.
    Cross(MigrationFailpoint),
    /// Publish the index catalog as migrated.
    PublishCatalog,
    /// Load the current catalog into the handle.
    RefreshCatalog,
    /// Publish the completion of the storage schema unless it is published.
    CompleteSchema,
    /// Nothing is left to do.
    Finish,
}

/// What came of an action.
#[derive(Debug, Clone, Copy, PartialEq, Eq, Structural)]
pub enum DefinitionEvent {
    /// The action was done.
    Done,
    /// What was decided on the prerequisites.
    Gated(DefinitionGate),
    /// Whether the walk is finished.
    Walked(bool),
    /// Whether the job has completed.
    Completed(bool),
    /// Whether the turn made progress.
    Advanced(bool),
}

/// Where the migration of definitions stands.
#[derive(Debug, Clone, Copy, PartialEq, Eq, Structural)]
pub enum DefinitionMigration {
    Gate,
    Preflight,
    Walk,
    EnsureCleanup,
    LoadRetirement,
    CheckCleanup,
    TurnCleanup,
    BeforePublication,
    Publish,
    AfterPublication,
    Refresh,
    CompleteSchema,
    Finished,
}

impl WalkAction {
    /// What a carried-out action of the walk reports.
    pub fn event(&self) -> (event: DefinitionEvent)
        ensures
            event == DefinitionEvent::Walked(*self is Finished),
    {
        match self {
            WalkAction::Finished => DefinitionEvent::Walked(true),
            _ => DefinitionEvent::Walked(false),
        }
    }
}

impl DefinitionMigration {
    /// The action that the state calls for.
    pub open spec fn action_spec(self) -> DefinitionAction {
        match self {
            DefinitionMigration::Gate => DefinitionAction::Gate,
            DefinitionMigration::Preflight => DefinitionAction::Preflight,
            DefinitionMigration::Walk => DefinitionAction::Walk,
            DefinitionMigration::EnsureCleanup => DefinitionAction::EnsureJob(
                MigrationId::LegacyVectorPhysicalCleanup,
                MigrationMode::BlockingStartup,
            ),
            DefinitionMigration::LoadRetirement => DefinitionAction::LoadVectorRetirement,
            DefinitionMigration::CheckCleanup => DefinitionAction::CheckCompleted(
                BlockingMigration::VectorCleanup,
            ),
            DefinitionMigration::TurnCleanup => DefinitionAction::RunTurn(
                BlockingMigration::VectorCleanup,
            ),
            DefinitionMigration::BeforePublication => DefinitionAction::Cross(
                MigrationFailpoint::MigrationReadyPublicationBefore,
            ),
            DefinitionMigration::Publish => DefinitionAction::PublishCatalog,
            DefinitionMigration::AfterPublication => DefinitionAction::Cross(
                MigrationFailpoint::MigrationReadyPublicationAfter,
            ),
            DefinitionMigration::Refresh => DefinitionAction::RefreshCatalog,
            DefinitionMigration::CompleteSchema => DefinitionAction::CompleteSchema,
            DefinitionMigration::Finished => DefinitionAction::Finish,
        }
    }

    /// Whether an event answers the action of the state.
    pub open spec fn answers(self, event: DefinitionEvent) -> bool {
        match self.action_spec() {
            DefinitionAction::Gate => event is Gated,
            DefinitionAction::Walk => event is Walked,
            DefinitionAction::CheckCompleted(_) => event is Completed,
            DefinitionAction::RunTurn(_) => event is Advanced,
            _ => event is Done,
        }
    }

    /// The state after an event.
    pub open spec fn after(self, event: DefinitionEvent) -> DefinitionMigration {
        match self {
            DefinitionMigration::Gate => if event == DefinitionEvent::Gated(
                DefinitionGate::Proceed,
            ) {
                DefinitionMigration::Preflight
            } else {
                DefinitionMigration::Refresh
            },
            DefinitionMigration::Preflight => DefinitionMigration::Walk,
            DefinitionMigration::Walk => if event == DefinitionEvent::Walked(true) {
                DefinitionMigration::EnsureCleanup
            } else {
                DefinitionMigration::Walk
            },
            DefinitionMigration::EnsureCleanup => DefinitionMigration::LoadRetirement,
            DefinitionMigration::LoadRetirement => DefinitionMigration::CheckCleanup,
            DefinitionMigration::CheckCleanup => if event == DefinitionEvent::Completed(true) {
                DefinitionMigration::BeforePublication
            } else {
                DefinitionMigration::TurnCleanup
            },
            DefinitionMigration::TurnCleanup => DefinitionMigration::CheckCleanup,
            DefinitionMigration::BeforePublication => DefinitionMigration::Publish,
            DefinitionMigration::Publish => DefinitionMigration::AfterPublication,
            DefinitionMigration::AfterPublication => DefinitionMigration::Refresh,
            DefinitionMigration::Refresh => DefinitionMigration::CompleteSchema,
            DefinitionMigration::CompleteSchema => DefinitionMigration::Finished,
            DefinitionMigration::Finished => DefinitionMigration::Finished,
        }
    }

    /// How far the state is on the way to the end; a loop keeps its place.
    pub open spec fn place(self) -> int {
        match self {
            DefinitionMigration::Gate => 0,
            DefinitionMigration::Preflight => 1,
            DefinitionMigration::Walk => 2,
            DefinitionMigration::EnsureCleanup => 3,
            DefinitionMigration::LoadRetirement => 4,
            DefinitionMigration::CheckCleanup => 5,
            DefinitionMigration::TurnCleanup => 5,
            DefinitionMigration::BeforePublication => 6,
            DefinitionMigration::Publish => 7,
            DefinitionMigration::AfterPublication => 8,
            DefinitionMigration::Refresh => 9,
            DefinitionMigration::CompleteSchema => 10,
            DefinitionMigration::Finished => 11,
        }
    }

    /// Where the migration starts.
    pub fn start() -> (state: Self)
        ensures
            state == DefinitionMigration::Gate,
    {
        DefinitionMigration::Gate
    }

    /// What to do next.
    pub fn action(self) -> (action: DefinitionAction)
        ensures
            action == self.action_spec(),
    {
        match self {
            DefinitionMigration::Gate => DefinitionAction::Gate,
            DefinitionMigration::Preflight => DefinitionAction::Preflight,
            DefinitionMigration::Walk => DefinitionAction::Walk,
            DefinitionMigration::EnsureCleanup => DefinitionAction::EnsureJob(
                MigrationId::LegacyVectorPhysicalCleanup,
                MigrationMode::BlockingStartup,
            ),
            DefinitionMigration::LoadRetirement => DefinitionAction::LoadVectorRetirement,
            DefinitionMigration::CheckCleanup => DefinitionAction::CheckCompleted(
                BlockingMigration::VectorCleanup,
            ),
            DefinitionMigration::TurnCleanup => DefinitionAction::RunTurn(
                BlockingMigration::VectorCleanup,
            ),
            DefinitionMigration::BeforePublication => DefinitionAction::Cross(
                MigrationFailpoint::MigrationReadyPublicationBefore,
            ),
            DefinitionMigration::Publish => DefinitionAction::PublishCatalog,
            DefinitionMigration::AfterPublication => DefinitionAction::Cross(
                MigrationFailpoint::MigrationReadyPublicationAfter,
            ),
            DefinitionMigration::Refresh => DefinitionAction::RefreshCatalog,
            DefinitionMigration::CompleteSchema => DefinitionAction::CompleteSchema,
            DefinitionMigration::Finished => DefinitionAction::Finish,
        }
    }

    /// Moves on with what came of the action of this state.
    ///
    /// A cleanup turn that makes no progress ends the migration.
    pub fn next(self, event: DefinitionEvent) -> (state: Result<Self, HelixDbError>)
        requires
            self.answers(event),
        ensures
            if event == DefinitionEvent::Advanced(false) {
                state matches Err(error) && error.is_config(
                    BlockingMigration::VectorCleanup.stall_message(),
                )
            } else {
                state matches Ok(state) && state == self.after(event)
            },
    {
        match self {
            DefinitionMigration::Gate => match event {
                DefinitionEvent::Gated(DefinitionGate::Proceed) => Ok(
                    DefinitionMigration::Preflight,
                ),
                _ => Ok(DefinitionMigration::Refresh),
            },
            DefinitionMigration::Preflight => Ok(DefinitionMigration::Walk),
            DefinitionMigration::Walk => match event {
                DefinitionEvent::Walked(true) => Ok(DefinitionMigration::EnsureCleanup),
                _ => Ok(DefinitionMigration::Walk),
            },
            DefinitionMigration::EnsureCleanup => Ok(DefinitionMigration::LoadRetirement),
            DefinitionMigration::LoadRetirement => Ok(DefinitionMigration::CheckCleanup),
            DefinitionMigration::CheckCleanup => match event {
                DefinitionEvent::Completed(true) => Ok(DefinitionMigration::BeforePublication),
                _ => Ok(DefinitionMigration::TurnCleanup),
            },
            DefinitionMigration::TurnCleanup => match event {
                DefinitionEvent::Advanced(false) => Err(BlockingMigration::VectorCleanup.stall()),
                _ => Ok(DefinitionMigration::CheckCleanup),
            },
            DefinitionMigration::BeforePublication => Ok(DefinitionMigration::Publish),
            DefinitionMigration::Publish => Ok(DefinitionMigration::AfterPublication),
            DefinitionMigration::AfterPublication => Ok(DefinitionMigration::Refresh),
            DefinitionMigration::Refresh => Ok(DefinitionMigration::CompleteSchema),
            DefinitionMigration::CompleteSchema => Ok(DefinitionMigration::Finished),
            DefinitionMigration::Finished => Ok(DefinitionMigration::Finished),
        }
    }
}

/// The state that a migration has reached after these events.
pub open spec fn reached(events: Seq<DefinitionEvent>) -> DefinitionMigration
    decreases events.len(),
{
    if events.len() == 0 {
        DefinitionMigration::Gate
    } else {
        reached(events.drop_last()).after(events.last())
    }
}

/// Whether each event answers the action of the state that the events before it reached.
pub open spec fn is_run(events: Seq<DefinitionEvent>) -> bool
    decreases events.len(),
{
    events.len() == 0 || (is_run(events.drop_last()) && reached(events.drop_last()).answers(
        events.last(),
    ) && events.last() != DefinitionEvent::Advanced(false))
}

/// Whether an event of a run answered the action of a state.
#[verifier::opaque]
pub open spec fn answered(
    events: Seq<DefinitionEvent>,
    state: DefinitionMigration,
    event: DefinitionEvent,
) -> bool {
    exists|i: int|
        0 <= i < events.len() && #[trigger] events[i] == event && reached(events.take(i)) == state
}

/// Whether a run has walked all rows.
pub open spec fn has_walked(events: Seq<DefinitionEvent>) -> bool {
    answered(events, DefinitionMigration::Walk, DefinitionEvent::Walked(true))
}

/// Whether a run has found the vector cleanup completed.
pub open spec fn has_cleaned(events: Seq<DefinitionEvent>) -> bool {
    answered(events, DefinitionMigration::CheckCleanup, DefinitionEvent::Completed(true))
}

/// Whether a run has published the index catalog.
pub open spec fn has_published(events: Seq<DefinitionEvent>) -> bool {
    answered(events, DefinitionMigration::Publish, DefinitionEvent::Done)
}

/// Whether a run has found the definitions already migrated.
pub open spec fn was_migrated(events: Seq<DefinitionEvent>) -> bool {
    answered(
        events,
        DefinitionMigration::Gate,
        DefinitionEvent::Gated(DefinitionGate::AlreadyMigrated),
    )
}

proof fn lemma_answers_stay(
    events: Seq<DefinitionEvent>,
    state: DefinitionMigration,
    event: DefinitionEvent,
)
    requires
        events.len() > 0,
        answered(events.drop_last(), state, event),
    ensures
        answered(events, state, event),
{
    reveal(answered);
    let before = events.drop_last();
    let i = choose|i: int|
        0 <= i < before.len() && #[trigger] before[i] == event && reached(before.take(i)) == state;
    assert(events[i] == event);
    assert(events.take(i) =~= before.take(i));
}

proof fn lemma_last_answer(events: Seq<DefinitionEvent>)
    requires
        events.len() > 0,
    ensures
        answered(events, reached(events.drop_last()), events.last()),
{
    reveal(answered);
    assert(events.take(events.len() - 1) =~= events.drop_last());
    assert(events[events.len() - 1] == events.last());
}

/// The migration of definitions never goes back, and stays in place only while the walk or
/// the cleanup has work left or nothing is left to do.
pub proof fn law_definition_migration_never_goes_back(
    state: DefinitionMigration,
    event: DefinitionEvent,
)
    requires
        state.answers(event),
    ensures
        state.after(event).place() >= state.place(),
        state.after(event).place() == state.place() ==> event == DefinitionEvent::Walked(false)
            || event == DefinitionEvent::Completed(false) || event is Advanced || state is Finished,
{
}

/// The index catalog is published only behind a finished walk and a completed vector
/// cleanup.
pub proof fn law_publication_waits_for_walk_and_cleanup(events: Seq<DefinitionEvent>)
    requires
        is_run(events),
    ensures
        3 <= reached(events).place() <= 8 ==> has_walked(events),
        6 <= reached(events).place() <= 8 ==> has_cleaned(events),
    decreases events.len(),
{
    if events.len() > 0 {
        let before = events.drop_last();
        law_publication_waits_for_walk_and_cleanup(before);
        lemma_last_answer(events);
        if has_walked(before) {
            lemma_answers_stay(
                events,
                DefinitionMigration::Walk,
                DefinitionEvent::Walked(true),
            );
        }
        if has_cleaned(before) {
            lemma_answers_stay(
                events,
                DefinitionMigration::CheckCleanup,
                DefinitionEvent::Completed(true),
            );
        }
    }
}

/// A migration ends only behind the completion of the schema; and before it either the
/// definitions were found migrated, or all rows were walked, the vector cleanup completed
/// and the index catalog was published.
pub proof fn law_migration_ends_behind_schema_completion(events: Seq<DefinitionEvent>)
    requires
        is_run(events),
    ensures
        reached(events) is Finished ==> answered(
            events,
            DefinitionMigration::CompleteSchema,
            DefinitionEvent::Done,
        ),
        reached(events).place() >= 9 ==> was_migrated(events) || (has_walked(events)
            && has_cleaned(events) && has_published(events)),
    decreases events.len(),
{
    if events.len() > 0 {
        let before = events.drop_last();
        law_migration_ends_behind_schema_completion(before);
        law_publication_waits_for_walk_and_cleanup(before);
        lemma_last_answer(events);
        lemma_publication_is_behind(before);
        if has_walked(before) {
            lemma_answers_stay(
                events,
                DefinitionMigration::Walk,
                DefinitionEvent::Walked(true),
            );
        }
        if has_cleaned(before) {
            lemma_answers_stay(
                events,
                DefinitionMigration::CheckCleanup,
                DefinitionEvent::Completed(true),
            );
        }
        if has_published(before) {
            lemma_answers_stay(events, DefinitionMigration::Publish, DefinitionEvent::Done);
        }
        if was_migrated(before) {
            lemma_answers_stay(
                events,
                DefinitionMigration::Gate,
                DefinitionEvent::Gated(DefinitionGate::AlreadyMigrated),
            );
        }
        if answered(before, DefinitionMigration::CompleteSchema, DefinitionEvent::Done) {
            lemma_answers_stay(events, DefinitionMigration::CompleteSchema, DefinitionEvent::Done);
        }
    }
}

proof fn lemma_publication_is_behind(events: Seq<DefinitionEvent>)
    requires
        is_run(events),
    ensures
        reached(events) is AfterPublication ==> has_published(events),
{
    if events.len() > 0 {
        lemma_last_answer(events);
    }
}

/// Whether a run has performed an action.
#[verifier::opaque]
pub open spec fn performed(events: Seq<DefinitionEvent>, action: DefinitionAction) -> bool {
    exists|i: int|
        0 <= i < events.len() && reached(#[trigger] events.take(i)).action_spec() == action
}

/// What a run has performed by the time it is at its state.
spec fn is_prepared(events: Seq<DefinitionEvent>) -> bool {
    let place = reached(events).place();
    let migrates = events.len() > 0 && events[0] == DefinitionEvent::Gated(DefinitionGate::Proceed);
    &&& place == 0 <==> events.len() == 0
    &&& 1 <= place <= 8 ==> migrates
    &&& place >= 9 ==> migrates || events[0] == DefinitionEvent::Gated(
        DefinitionGate::AlreadyMigrated,
    )
    &&& place >= 2 && migrates ==> performed(events, DefinitionAction::Preflight)
    &&& place >= 3 && migrates ==> performed(events, DefinitionAction::Walk)
    &&& place == 3 ==> events.last() == DefinitionEvent::Walked(true)
    &&& place >= 4 && migrates ==> performed(
        events,
        DefinitionAction::EnsureJob(
            MigrationId::LegacyVectorPhysicalCleanup,
            MigrationMode::BlockingStartup,
        ),
    )
    &&& place >= 5 && migrates ==> performed(events, DefinitionAction::LoadVectorRetirement)
    &&& place >= 6 && migrates ==> performed(
        events,
        DefinitionAction::CheckCompleted(BlockingMigration::VectorCleanup),
    )
    &&& reached(events) is TurnCleanup ==> performed(
        events,
        DefinitionAction::CheckCompleted(BlockingMigration::VectorCleanup),
    ) && events.last() == DefinitionEvent::Completed(false)
    &&& place == 6 ==> events.last() == DefinitionEvent::Completed(true)
    &&& place >= 7 && migrates ==> performed(
        events,
        DefinitionAction::Cross(MigrationFailpoint::MigrationReadyPublicationBefore),
    )
    &&& place >= 8 && migrates ==> performed(events, DefinitionAction::PublishCatalog)
    &&& place >= 9 && migrates ==> performed(
        events,
        DefinitionAction::Cross(MigrationFailpoint::MigrationReadyPublicationAfter),
    )
    &&& place >= 10 ==> performed(events, DefinitionAction::RefreshCatalog)
    &&& place >= 11 ==> performed(events, DefinitionAction::CompleteSchema)
}

proof fn lemma_performed(events: Seq<DefinitionEvent>)
    requires
        events.len() > 0,
    ensures
        performed(events, reached(events.drop_last()).action_spec()),
        forall|action: DefinitionAction| #[trigger]
            performed(events.drop_last(), action) ==> performed(events, action),
{
    reveal(performed);
    let before = events.drop_last();
    assert(events.take(events.len() - 1) =~= before);
    assert forall|action: DefinitionAction| #[trigger] performed(before, action) implies performed(
        events,
        action,
    ) by {
        let i = choose|i: int|
            0 <= i < before.len() && reached(#[trigger] before.take(i)).action_spec() == action;
        assert(events.take(i) =~= before.take(i));
    }
}

proof fn lemma_run_is_prepared(events: Seq<DefinitionEvent>)
    requires
        is_run(events),
    ensures
        is_prepared(events),
    decreases events.len(),
{
    if events.len() > 0 {
        lemma_run_is_prepared(events.drop_last());
        lemma_performed(events);
    }
}

/// In every run, each action waits for those that it builds on. Rows are walked only with
/// their namespaces reserved. The vector cleanup gets its job only behind the last row, and
/// is looked at and run only with its job in place and its catalog loaded. The catalog is
/// published only behind the answer that the cleanup has completed, between its two
/// boundaries, and refreshed behind that, or at once where the definitions had been
/// migrated. The schema completes only with a refreshed catalog, and the run ends behind it.
pub proof fn law_definition_runs_build_on_what_was_done(events: Seq<DefinitionEvent>)
    requires
        is_run(events),
    ensures
        match reached(events).action_spec() {
            DefinitionAction::Gate => events.len() == 0,
            DefinitionAction::Preflight => events[0] == DefinitionEvent::Gated(
                DefinitionGate::Proceed,
            ),
            DefinitionAction::Walk => performed(events, DefinitionAction::Preflight),
            DefinitionAction::EnsureJob(id, mode) => performed(events, DefinitionAction::Walk)
                && events.last() == DefinitionEvent::Walked(true)
                && id is LegacyVectorPhysicalCleanup && mode is BlockingStartup,
            DefinitionAction::LoadVectorRetirement => performed(
                events,
                DefinitionAction::EnsureJob(
                    MigrationId::LegacyVectorPhysicalCleanup,
                    MigrationMode::BlockingStartup,
                ),
            ),
            DefinitionAction::CheckCompleted(migration) => migration is VectorCleanup
                && performed(events, DefinitionAction::LoadVectorRetirement),
            DefinitionAction::RunTurn(migration) => migration is VectorCleanup && performed(
                events,
                DefinitionAction::CheckCompleted(BlockingMigration::VectorCleanup),
            ) && events.last() == DefinitionEvent::Completed(false),
            DefinitionAction::Cross(failpoint) => if failpoint is MigrationReadyPublicationBefore {
                performed(
                    events,
                    DefinitionAction::CheckCompleted(BlockingMigration::VectorCleanup),
                ) && events.last() == DefinitionEvent::Completed(true)
            } else {
                failpoint is MigrationReadyPublicationAfter && performed(
                    events,
                    DefinitionAction::PublishCatalog,
                )
            },
            DefinitionAction::PublishCatalog => performed(
                events,
                DefinitionAction::Cross(MigrationFailpoint::MigrationReadyPublicationBefore),
            ),
            DefinitionAction::RefreshCatalog => events[0] == DefinitionEvent::Gated(
                DefinitionGate::AlreadyMigrated,
            ) || performed(
                events,
                DefinitionAction::Cross(MigrationFailpoint::MigrationReadyPublicationAfter),
            ),
            DefinitionAction::CompleteSchema => performed(events, DefinitionAction::RefreshCatalog),
            DefinitionAction::Finish => performed(events, DefinitionAction::CompleteSchema),
        },
{
    lemma_run_is_prepared(events);
}

/// An unfinished cleanup gets a turn and is looked at again behind it, and an unfinished walk
/// takes its next action; both go on as soon as they are finished.
pub proof fn law_definition_loops_go_on(state: DefinitionMigration)
    ensures
        state.action_spec() == DefinitionAction::CheckCompleted(BlockingMigration::VectorCleanup)
            ==> state.after(DefinitionEvent::Completed(false)).action_spec()
            == DefinitionAction::RunTurn(BlockingMigration::VectorCleanup) && !(state.after(
            DefinitionEvent::Completed(true),
        ).action_spec() is RunTurn),
        state.action_spec() is RunTurn ==> state.after(
            DefinitionEvent::Advanced(true),
        ).action_spec() == DefinitionAction::CheckCompleted(BlockingMigration::VectorCleanup),
        state.action_spec() is Walk ==> state.after(DefinitionEvent::Walked(false)) == state
            && state.after(DefinitionEvent::Walked(true)) != state,
        state.action_spec() is Gate ==> state.after(
            DefinitionEvent::Gated(DefinitionGate::Proceed),
        ).action_spec() is Preflight && state.after(
            DefinitionEvent::Gated(DefinitionGate::AlreadyMigrated),
        ).action_spec() is RefreshCatalog,
        state.action_spec() is Finish ==> state.after(DefinitionEvent::Done) == state,
{
}

/// Each action is answered by what it finds out, and by nothing but its end where it finds
/// out nothing.
pub proof fn law_answers_fit_the_action(state: DefinitionMigration, event: DefinitionEvent)
    ensures
        state.answers(event) <==> match event {
            DefinitionEvent::Gated(_) => state.action_spec() is Gate,
            DefinitionEvent::Walked(_) => state.action_spec() is Walk,
            DefinitionEvent::Completed(_) => state.action_spec() is CheckCompleted,
            DefinitionEvent::Advanced(_) => state.action_spec() is RunTurn,
            DefinitionEvent::Done => !(state.action_spec() is Gate) && !(state.action_spec()
                is Walk) && !(state.action_spec() is CheckCompleted) && !(state.action_spec()
                is RunTurn),
        },
{
}

} // verus!
