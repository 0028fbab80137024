//! The steps that open a handle.
use vstd::prelude::*;

use crate::mode::HelixDbMode;

verus! {

/// One step of opening a handle.
#[derive(Debug, Clone, Copy, PartialEq, Eq, Structural)]
pub enum OpenStep {
    /// Build the storage cache that is configured.
    BuildSlateCache,
    /// Open storage.
    OpenStorage,
    /// Establish the index storage of a writer.
    BootstrapWriter,
    /// Require the index storage that a writer has established.
    RequireBootstrap,
    /// Reserve the vector namespaces of legacy definitions.
    PreflightReservations,
    /// Run the migrations that block opening.
    StartupMigration,
    /// Repair operations that waited for readers.
    ReconcileReaderOperations,
    /// Repair the operation queue.
    ReconcileQueue,
    /// Load the index catalog.
    LoadCatalog,
    /// Build the full-text cache that is configured.
    BuildFtsCache,
    /// Put the handle together and start its worker.
    Assemble,
    /// Migrate legacy index definitions.
    MigrateDefinitions,
    /// Migrate the directories of active vector indexes.
    MigrateDirectories,
    /// Warm the storage and full-text caches.
    WarmCaches,
    /// Warm the vector cache.
    WarmVectors,
    /// The handle is open.
    Ready,
}

/// What the failure of a step calls for.
#[derive(Debug, Clone, Copy, PartialEq, Eq, Structural)]
pub enum OpenFailure {
    /// Return the failure.
    Return,
    /// Close the handle, then return the failure of the step.
    CloseThenReturn,
}

impl OpenStep {
    /// Place of the step on the way to an open handle.
    pub open spec fn place(self) -> int {
        match self {
            OpenStep::BuildSlateCache => 0,
            OpenStep::OpenStorage => 1,
            OpenStep::BootstrapWriter => 2,
            OpenStep::RequireBootstrap => 2,
            OpenStep::PreflightReservations => 3,
            OpenStep::StartupMigration => 4,
            OpenStep::ReconcileReaderOperations => 5,
            OpenStep::ReconcileQueue => 6,
            OpenStep::LoadCatalog => 7,
            OpenStep::BuildFtsCache => 8,
            OpenStep::Assemble => 9,
            OpenStep::MigrateDefinitions => 10,
            OpenStep::MigrateDirectories => 11,
            OpenStep::WarmCaches => 12,
            OpenStep::WarmVectors => 13,
            OpenStep::Ready => 14,
        }
    }

    /// Whether the step changes what is stored, which only a writer may do.
    pub open spec fn writes(self) -> bool {
        ||| self is BootstrapWriter
        ||| self is PreflightReservations
        ||| self is StartupMigration
        ||| self is ReconcileReaderOperations
        ||| self is ReconcileQueue
        ||| self is MigrateDefinitions
        ||| self is MigrateDirectories
    }

    /// Whether a handle in this mode goes through the step.
    pub open spec fn occurs(self, mode: HelixDbMode) -> bool {
        match mode {
            HelixDbMode::Writer => !(self is RequireBootstrap),
            HelixDbMode::ReadOnly => !self.writes(),
        }
    }

    /// The first step.
    pub fn first() -> (step: Self)
        ensures
            step is BuildSlateCache,
    {
        OpenStep::BuildSlateCache
    }

    /// The step that follows: the next one that a handle in this mode goes through.
    pub fn next(self, mode: HelixDbMode) -> (next: Self)
        requires
            self.occurs(mode),
        ensures
            next.occurs(mode),
            self is Ready ==> next is Ready,
            !(self is Ready) ==> next.place() > self.place(),
            forall|step: OpenStep|
                #[trigger] step.occurs(mode) && step.place() > self.place() ==> step.place()
                    >= next.place(),
    {
        match (self, mode) {
            (OpenStep::BuildSlateCache, _) => OpenStep::OpenStorage,
            (OpenStep::OpenStorage, HelixDbMode::Writer) => OpenStep::BootstrapWriter,
            (OpenStep::OpenStorage, HelixDbMode::ReadOnly) => OpenStep::RequireBootstrap,
            (OpenStep::RequireBootstrap, _) => OpenStep::LoadCatalog,
            (OpenStep::BootstrapWriter, _) => OpenStep::PreflightReservations,
            (OpenStep::PreflightReservations, _) => OpenStep::StartupMigration,
            (OpenStep::StartupMigration, _) => OpenStep::ReconcileReaderOperations,
            (OpenStep::ReconcileReaderOperations, _) => OpenStep::ReconcileQueue,
            (OpenStep::ReconcileQueue, _) => OpenStep::LoadCatalog,
            (OpenStep::LoadCatalog, _) => OpenStep::BuildFtsCache,
            (OpenStep::BuildFtsCache, _) => OpenStep::Assemble,
            (OpenStep::Assemble, HelixDbMode::Writer) => OpenStep::MigrateDefinitions,
            (OpenStep::Assemble, HelixDbMode::ReadOnly) => OpenStep::WarmCaches,
            (OpenStep::MigrateDefinitions, _) => OpenStep::MigrateDirectories,
            (OpenStep::MigrateDirectories, _) => OpenStep::WarmCaches,
            (OpenStep::WarmCaches, _) => OpenStep::WarmVectors,
            (OpenStep::WarmVectors, _) => OpenStep::Ready,
            (OpenStep::Ready, _) => OpenStep::Ready,
        }
    }

    /// Decides what the failure of the step calls for.
    ///
    /// A migration that fails behind the assembly leaves a handle with a running worker,
    /// which has to be closed.
    pub fn on_failure(self) -> (failure: OpenFailure)
        ensures
            failure is CloseThenReturn <==> self is MigrateDefinitions
                || self is MigrateDirectories,
    {
        match self {
            OpenStep::MigrateDefinitions | OpenStep::MigrateDirectories =>
                OpenFailure::CloseThenReturn,
            _ => OpenFailure::Return,
        }
    }
}

/// A reader opens without changing anything that is stored.
pub proof fn law_reader_open_writes_nothing(step: OpenStep)
    requires
        step.occurs(HelixDbMode::ReadOnly),
    ensures
        !step.writes(),
{
}

/// Whether the step serves a handle that has been put together.
pub open spec fn serves(step: OpenStep) -> bool {
    ||| step is WarmCaches
    ||| step is WarmVectors
    ||| step is Ready
}

/// A writer finishes every step that changes what is stored before it warms a cache or
/// serves, and every one but the migrations of definitions and directories before it loads
/// a catalog and starts a worker.
pub proof fn law_writer_migrates_before_it_serves(step: OpenStep, serving: OpenStep)
    requires
        step.writes(),
        serves(serving),
    ensures
        step.place() < serving.place(),
        step is MigrateDefinitions || step is MigrateDirectories || step.place()
            < OpenStep::LoadCatalog.place(),
{
}

/// A handle is opened from storage up: storage before anything that is kept in it, a
/// writer's index storage before the reservations and migrations that need it, these before
/// the repair of operations, all of them before the catalog is loaded, the catalog before the
/// handle is put together, and the handle before definitions and directories are migrated
/// and caches are warmed.
pub proof fn law_opening_goes_from_storage_to_serving()
    ensures
        OpenStep::BuildSlateCache.place() < OpenStep::OpenStorage.place()
            < OpenStep::BootstrapWriter.place() < OpenStep::PreflightReservations.place()
            < OpenStep::StartupMigration.place() < OpenStep::ReconcileReaderOperations.place()
            < OpenStep::ReconcileQueue.place() < OpenStep::LoadCatalog.place()
            < OpenStep::BuildFtsCache.place() < OpenStep::Assemble.place()
            < OpenStep::MigrateDefinitions.place() < OpenStep::MigrateDirectories.place()
            < OpenStep::WarmCaches.place() < OpenStep::WarmVectors.place()
            < OpenStep::Ready.place(),
        OpenStep::OpenStorage.place() < OpenStep::RequireBootstrap.place()
            < OpenStep::LoadCatalog.place(),
{
}

/// A writer goes through every step but the one that only requires what it establishes; a
/// reader goes through exactly the steps that change nothing.
pub proof fn law_modes_go_through_their_steps(step: OpenStep)
    ensures
        step.occurs(HelixDbMode::Writer) <==> step != OpenStep::RequireBootstrap,
        step.occurs(HelixDbMode::ReadOnly) <==> step is BuildSlateCache || step is OpenStorage
            || step is RequireBootstrap || step is LoadCatalog || step is BuildFtsCache || step
            is Assemble || step is WarmCaches || step is WarmVectors || step is Ready,
        step.writes() ==> !(step is LoadCatalog) && !(step is WarmCaches) && !(step is WarmVectors),
{
}

} // verus!
