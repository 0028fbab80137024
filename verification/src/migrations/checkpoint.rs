//! Process-local interruption of the legacy text rebuild.
use vstd::prelude::*;

use crate::error::HelixDbError;
use crate::text::joined;

verus! {

/// Durable legacy-text rebuild boundary selected by migration acceptance tests.
#[derive(Debug, Clone, Copy, PartialEq, Eq, Structural)]
pub enum LegacyTextMigrationCheckpoint {
    BeforeEnqueue,
    SourceScan,
    CatchUp,
    ValidatePages,
    ValidateRoots,
    ValidateEntityStates,
    AfterActivationBeforeRetirement,
}

impl LegacyTextMigrationCheckpoint {
    /// Diagnostic name of the boundary.
    pub open spec fn name(self) -> Seq<char> {
        match self {
            LegacyTextMigrationCheckpoint::BeforeEnqueue => "BeforeEnqueue"@,
            LegacyTextMigrationCheckpoint::SourceScan => "SourceScan"@,
            LegacyTextMigrationCheckpoint::CatchUp => "CatchUp"@,
            LegacyTextMigrationCheckpoint::ValidatePages => "ValidatePages"@,
            LegacyTextMigrationCheckpoint::ValidateRoots => "ValidateRoots"@,
            LegacyTextMigrationCheckpoint::ValidateEntityStates => "ValidateEntityStates"@,
            LegacyTextMigrationCheckpoint::AfterActivationBeforeRetirement =>
                "AfterActivationBeforeRetirement"@,
        }
    }

    /// Diagnostic name of the boundary.
    pub fn as_str(self) -> (name: &'static str)
        ensures
            name@ == self.name(),
    {
        match self {
            LegacyTextMigrationCheckpoint::BeforeEnqueue => "BeforeEnqueue",
            LegacyTextMigrationCheckpoint::SourceScan => "SourceScan",
            LegacyTextMigrationCheckpoint::CatchUp => "CatchUp",
            LegacyTextMigrationCheckpoint::ValidatePages => "ValidatePages",
            LegacyTextMigrationCheckpoint::ValidateRoots => "ValidateRoots",
            LegacyTextMigrationCheckpoint::ValidateEntityStates => "ValidateEntityStates",
            LegacyTextMigrationCheckpoint::AfterActivationBeforeRetirement =>
                "AfterActivationBeforeRetirement",
        }
    }
}

/// An armed interruption, and whether its boundary was reached.
///
/// Only an armed interruption can have been reached.
#[derive(Debug)]
pub struct LegacyTextMigrationCheckpointState {
    target: Option<LegacyTextMigrationCheckpoint>,
    triggered: bool,
}

impl LegacyTextMigrationCheckpointState {
    #[verifier::type_invariant]
    spec fn triggered_has_target(self) -> bool {
        self.triggered ==> self.target is Some
    }

    /// The boundary that is armed.
    pub closed spec fn armed(self) -> Option<LegacyTextMigrationCheckpoint> {
        self.target
    }

    /// Whether the armed boundary was reached.
    pub closed spec fn reached(self) -> bool {
        self.triggered
    }

    /// Nothing armed.
    pub fn new() -> (state: Self)
        ensures
            state.armed() is None,
            !state.reached(),
    {
        LegacyTextMigrationCheckpointState { target: None, triggered: false }
    }

    /// Whether a failure reports the interruption at the armed boundary.
    pub open spec fn is_interruption(self, error: HelixDbError) -> bool {
        self.armed() matches Some(target) && error.is_migration_required(
            "injected legacy text migration interruption at "@ + target.name(),
        )
    }
}

/// Arms one process-local interruption; another one must not be armed.
pub fn inject_legacy_text_migration_checkpoint_once(
    state: &mut LegacyTextMigrationCheckpointState,
    checkpoint: LegacyTextMigrationCheckpoint,
) -> (armed: Result<(), HelixDbError>)
    ensures
        if old(state).armed() is Some {
            &&& armed matches Err(error) && error.is_config(
                "a legacy text migration checkpoint is already armed"@,
            )
            &&& *final(state) == *old(state)
        } else {
            &&& armed is Ok
            &&& final(state).armed() == Some(checkpoint)
            &&& !final(state).reached()
        },
{
    if state.target.is_some() {
        return Err(
            HelixDbError::Config("a legacy text migration checkpoint is already armed".to_owned()),
        );
    }
    *state = LegacyTextMigrationCheckpointState { target: Some(checkpoint), triggered: false };
    Ok(())
}

/// Clears the interruption before a recovery open.
pub fn clear_legacy_text_migration_checkpoint(state: &mut LegacyTextMigrationCheckpointState)
    ensures
        final(state).armed() is None,
        !final(state).reached(),
{
    *state = LegacyTextMigrationCheckpointState::new();
}

/// Whether the selected boundary was reached.
pub fn legacy_text_migration_checkpoint_was_triggered(
    state: &LegacyTextMigrationCheckpointState,
) -> (reached: bool)
    ensures
        reached == state.reached(),
{
    state.triggered
}

/// Stops the migration once the armed boundary was reached.
pub fn check_legacy_text_migration_interruption(
    state: &LegacyTextMigrationCheckpointState,
) -> (checked: Result<(), HelixDbError>)
    ensures
        checked is Err <==> state.reached(),
        checked matches Err(error) ==> state.is_interruption(error),
{
    proof {
        use_type_invariant(state);
    }
    if state.triggered {
        match state.target {
            Some(target) => {
                return Err(
                    HelixDbError::MigrationRequired {
                        reason: joined(
                            "injected legacy text migration interruption at ",
                            target.as_str(),
                        ),
                    },
                );
            },
            None => {},
        }
    }
    Ok(())
}

/// Crosses a boundary: the armed one interrupts the migration, from then on everywhere.
pub fn trip_legacy_text_migration_checkpoint(
    state: &mut LegacyTextMigrationCheckpointState,
    checkpoint: LegacyTextMigrationCheckpoint,
) -> (crossed: Result<(), HelixDbError>)
    ensures
        final(state).armed() == old(state).armed(),
        final(state).reached() == (old(state).reached() || old(state).armed() == Some(checkpoint)),
        crossed is Err <==> final(state).reached(),
        crossed matches Err(error) ==> final(state).is_interruption(error),
{
    let target = state.target;
    match target {
        Some(armed) => {
            if armed == checkpoint {
                *state = LegacyTextMigrationCheckpointState { target, triggered: true };
            }
        },
        None => {},
    }
    check_legacy_text_migration_interruption(state)
}

/// Part of the manifest that a text build is validating.
#[derive(Debug, Clone, Copy, PartialEq, Eq, Structural)]
pub enum TextManifestValidationProgress {
    Pages,
    Roots,
    EntityStates,
}

/// Stage of a text build that is constructing its index.
#[derive(Debug, Clone, Copy, PartialEq, Eq, Structural)]
pub enum TextBuildStage {
    ScanSource,
    ScanPartitions,
    CatchUp,
    Compact,
    PrepareManifests,
    ValidateManifests(TextManifestValidationProgress),
    Activate,
}

/// Progress of a lifecycle operation, as far as text builds are concerned.
#[derive(Debug, Clone, Copy, PartialEq, Eq, Structural)]
pub enum IndexOperationProgress {
    /// A text build that is constructing its index.
    ConstructingText(TextBuildStage),
    /// Anything else.
    Other,
}

impl IndexOperationProgress {
    /// The boundary that a queued operation stands at.
    pub open spec fn boundary(self) -> Option<LegacyTextMigrationCheckpoint> {
        match self {
            IndexOperationProgress::ConstructingText(TextBuildStage::ScanSource) => Some(
                LegacyTextMigrationCheckpoint::SourceScan,
            ),
            IndexOperationProgress::ConstructingText(TextBuildStage::CatchUp) => Some(
                LegacyTextMigrationCheckpoint::CatchUp,
            ),
            IndexOperationProgress::ConstructingText(
                TextBuildStage::ValidateManifests(TextManifestValidationProgress::Pages),
            ) => Some(LegacyTextMigrationCheckpoint::ValidatePages),
            IndexOperationProgress::ConstructingText(
                TextBuildStage::ValidateManifests(TextManifestValidationProgress::Roots),
            ) => Some(LegacyTextMigrationCheckpoint::ValidateRoots),
            IndexOperationProgress::ConstructingText(
                TextBuildStage::ValidateManifests(TextManifestValidationProgress::EntityStates),
            ) => Some(LegacyTextMigrationCheckpoint::ValidateEntityStates),
            _ => None,
        }
    }
}

/// Observes a queued operation before a worker acquires it.
pub fn observe_legacy_text_migration_operation(
    state: &mut LegacyTextMigrationCheckpointState,
    progress: IndexOperationProgress,
) -> (observed: Result<(), HelixDbError>)
    ensures
        final(state).armed() == old(state).armed(),
        final(state).reached() == (old(state).reached() || (progress.boundary() is Some && old(
            state,
        ).armed() == progress.boundary())),
        observed is Err <==> final(state).reached(),
        observed matches Err(error) ==> final(state).is_interruption(error),
{
    let stage = match progress {
        IndexOperationProgress::ConstructingText(stage) => stage,
        IndexOperationProgress::Other => {
            return check_legacy_text_migration_interruption(state);
        },
    };
    let checkpoint = match stage {
        TextBuildStage::ScanSource => Some(LegacyTextMigrationCheckpoint::SourceScan),
        TextBuildStage::CatchUp => Some(LegacyTextMigrationCheckpoint::CatchUp),
        TextBuildStage::ValidateManifests(validation) => Some(
            match validation {
                TextManifestValidationProgress::Pages =>
                    LegacyTextMigrationCheckpoint::ValidatePages,
                TextManifestValidationProgress::Roots =>
                    LegacyTextMigrationCheckpoint::ValidateRoots,
                TextManifestValidationProgress::EntityStates =>
                    LegacyTextMigrationCheckpoint::ValidateEntityStates,
            },
        ),
        TextBuildStage::ScanPartitions
        | TextBuildStage::Compact
        | TextBuildStage::PrepareManifests
        | TextBuildStage::Activate => None,
    };
    match checkpoint {
        Some(checkpoint) => trip_legacy_text_migration_checkpoint(state, checkpoint),
        None => check_legacy_text_migration_interruption(state),
    }
}

/// Checkpoints are named as they are called.
pub proof fn law_checkpoint_names_are_frozen()
    ensures
        LegacyTextMigrationCheckpoint::BeforeEnqueue.name() == "BeforeEnqueue"@,
        LegacyTextMigrationCheckpoint::SourceScan.name() == "SourceScan"@,
        LegacyTextMigrationCheckpoint::CatchUp.name() == "CatchUp"@,
        LegacyTextMigrationCheckpoint::ValidatePages.name() == "ValidatePages"@,
        LegacyTextMigrationCheckpoint::ValidateRoots.name() == "ValidateRoots"@,
        LegacyTextMigrationCheckpoint::ValidateEntityStates.name() == "ValidateEntityStates"@,
        LegacyTextMigrationCheckpoint::AfterActivationBeforeRetirement.name()
            == "AfterActivationBeforeRetirement"@,
{
}

/// A queued text build stands at the checkpoint of its stage. The stages between scan and
/// validation that have none, and all other operations, stand at none, and no queued
/// operation stands before its enqueueing or behind its activation.
pub proof fn law_stages_stand_at_their_checkpoint(progress: IndexOperationProgress)
    ensures
        progress.boundary() == Some(LegacyTextMigrationCheckpoint::SourceScan) <==> progress
            == IndexOperationProgress::ConstructingText(TextBuildStage::ScanSource),
        progress.boundary() == Some(LegacyTextMigrationCheckpoint::CatchUp) <==> progress
            == IndexOperationProgress::ConstructingText(TextBuildStage::CatchUp),
        progress.boundary() == Some(LegacyTextMigrationCheckpoint::ValidatePages) <==> progress
            == IndexOperationProgress::ConstructingText(
            TextBuildStage::ValidateManifests(TextManifestValidationProgress::Pages),
        ),
        progress.boundary() == Some(LegacyTextMigrationCheckpoint::ValidateRoots) <==> progress
            == IndexOperationProgress::ConstructingText(
            TextBuildStage::ValidateManifests(TextManifestValidationProgress::Roots),
        ),
        progress.boundary() == Some(LegacyTextMigrationCheckpoint::ValidateEntityStates)
            <==> progress == IndexOperationProgress::ConstructingText(
            TextBuildStage::ValidateManifests(TextManifestValidationProgress::EntityStates),
        ),
        progress.boundary() != Some(LegacyTextMigrationCheckpoint::BeforeEnqueue),
        progress.boundary() != Some(LegacyTextMigrationCheckpoint::AfterActivationBeforeRetirement),
{
}

/// An interruption asks for a migration and names the checkpoint that is armed.
pub proof fn law_interruptions_name_the_checkpoint(
    state: LegacyTextMigrationCheckpointState,
    error: HelixDbError,
)
    ensures
        state.is_interruption(error) ==> state.armed() is Some,
        state.armed() matches Some(target) ==> (state.is_interruption(error) <==> (error matches
            HelixDbError::MigrationRequired { reason } && reason@
            == "injected legacy text migration interruption at "@ + target.name())),
{
}

} // verus!
