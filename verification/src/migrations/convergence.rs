//! Bringing legacy definitions to life in the current catalog.
use vstd::prelude::*;

use super::definitions::{
    IndexElementKind, RangeIndexDirection, SecondaryIndexKind, ValidatedDynamicIndexDefinition,
};
use super::records::{
    IndexOperationId, IndexRecord, IndexState, LegacyVectorPhysicalReservation, PhysicalLayout,
};
use crate::error::{HelixDbError, IndexFamily, IndexLifecycleUnavailableReason};
use crate::text::{decimal_text, joined, joined3};

verus! {

/// What brings one definition closer to life.
#[derive(Debug, Clone, Copy, PartialEq, Eq, Structural)]
pub enum ConvergenceStep {
    /// The definition is active.
    Converged,
    /// Nothing builds it yet.
    Enqueue,
    /// An operation builds it: wait, after retrying it where `retries_before_waiting`
    /// says so.
    AwaitBuild { operation_id: IndexOperationId },
    /// Another operation is in the way: wait for it.
    Await { operation_id: IndexOperationId },
}

/// The step that a record in this state calls for.
pub open spec fn step_for(state: IndexState) -> ConvergenceStep {
    match state {
        IndexState::Active => ConvergenceStep::Converged,
        IndexState::Dropped => ConvergenceStep::Enqueue,
        IndexState::Building { build_operation_id } => ConvergenceStep::AwaitBuild {
            operation_id: build_operation_id,
        },
        IndexState::Aborting { build_operation_id } => ConvergenceStep::Await {
            operation_id: build_operation_id,
        },
        IndexState::Dropping { drop_operation_id } => ConvergenceStep::Await {
            operation_id: drop_operation_id,
        },
    }
}

/// Decides the next step toward an active record of exactly this definition.
pub fn next_convergence_step(
    definition: &ValidatedDynamicIndexDefinition,
    current: Option<&IndexRecord>,
) -> (step: Result<ConvergenceStep, HelixDbError>)
    ensures
        match current {
            None => step matches Ok(step) && step == ConvergenceStep::Enqueue,
            Some(current) => if current.definition@ != definition@ {
                &&& step matches Err(error) && error.is_definition_conflict(
                    current.definition@,
                    definition@,
                )
                &&& super::differences::differing(current.definition@, definition@).len() > 0
            } else {
                step matches Ok(step) && step == step_for(current.state)
            },
        },
{
    let current = match current {
        Some(current) => current,
        None => {
            return Ok(ConvergenceStep::Enqueue);
        },
    };
    if !current.definition.same_as(definition) {
        proof {
            super::differences::law_differences_are_exact(current.definition@, definition@);
        }
        return Err(
            HelixDbError::IndexDefinitionConflict {
                existing: Box::new(current.definition.duplicate()),
                requested: Box::new(definition.duplicate()),
                differing_fields: current.definition.differences(definition),
            },
        );
    }
    match current.state {
        IndexState::Active => Ok(ConvergenceStep::Converged),
        IndexState::Dropped => Ok(ConvergenceStep::Enqueue),
        IndexState::Building { build_operation_id } => Ok(
            ConvergenceStep::AwaitBuild { operation_id: build_operation_id },
        ),
        IndexState::Aborting { build_operation_id } => Ok(
            ConvergenceStep::Await { operation_id: build_operation_id },
        ),
        IndexState::Dropping { drop_operation_id } => Ok(
            ConvergenceStep::Await { operation_id: drop_operation_id },
        ),
    }
}

/// What drops one identity.
#[derive(Debug, Clone, Copy, PartialEq, Eq, Structural)]
pub enum TombstoneStep {
    /// Nothing has the identity.
    Gone,
    /// Drop the record and wait for the operation that does it.
    Drop { is_secondary: bool },
}

/// Decides the next step toward an identity that nothing has.
pub fn next_tombstone_step(current: Option<&IndexRecord>) -> (step: TombstoneStep)
    ensures
        match current {
            None => step == TombstoneStep::Gone,
            Some(current) => if current.state is Dropped {
                step == TombstoneStep::Gone
            } else {
                step == (TombstoneStep::Drop { is_secondary: current.definition@ is Secondary })
            },
        },
{
    let current = match current {
        Some(current) => current,
        None => {
            return TombstoneStep::Gone;
        },
    };
    match current.state {
        IndexState::Dropped => TombstoneStep::Gone,
        _ => TombstoneStep::Drop { is_secondary: is_secondary(&current.definition) },
    }
}

fn is_secondary(definition: &ValidatedDynamicIndexDefinition) -> (secondary: bool)
    ensures
        secondary == (definition@ is Secondary),
{
    matches!(definition, ValidatedDynamicIndexDefinition::Secondary(_))
}

/// Receipt of a request that changes an index definition.
#[allow(inconsistent_fields)]
#[derive(Debug, Clone, Copy, PartialEq, Eq, Structural)]
pub enum IndexDdlReceipt {
    /// A new operation carries the request out.
    Accepted { index_id: u64, operation_id: IndexOperationId },
    /// An operation that exists already carries the request out.
    ExistingOperation { operation_id: IndexOperationId },
    /// The request holds already.
    AlreadyActive { index_id: u64 },
}

/// The operation to wait for, if any.
pub fn receipt_operation_id(receipt: IndexDdlReceipt) -> (operation: Option<IndexOperationId>)
    ensures
        operation == match receipt {
            IndexDdlReceipt::Accepted { operation_id, .. } => Some(operation_id),
            IndexDdlReceipt::ExistingOperation { operation_id } => Some(operation_id),
            IndexDdlReceipt::AlreadyActive { .. } => None,
        },
{
    match receipt {
        IndexDdlReceipt::Accepted { operation_id, .. } => Some(operation_id),
        IndexDdlReceipt::ExistingOperation { operation_id } => Some(operation_id),
        IndexDdlReceipt::AlreadyActive { .. } => None,
    }
}

/// Family of a definition in lifecycle failures.
pub open spec fn failure_family(definition: ValidatedDynamicIndexDefinition) -> IndexFamily {
    match definition {
        ValidatedDynamicIndexDefinition::Secondary(_) => IndexFamily::Secondary,
        ValidatedDynamicIndexDefinition::Vector(_) => IndexFamily::Vector,
        ValidatedDynamicIndexDefinition::Text(_) => IndexFamily::Text,
    }
}

/// Whether a definition can take over the namespace of its legacy form: only a vector
/// index that is not partitioned by tenant.
pub open spec fn may_adopt(definition: ValidatedDynamicIndexDefinition) -> bool {
    definition matches ValidatedDynamicIndexDefinition::Vector(vector)
        && vector.tenant_property is None
}

/// Whether the namespace of a definition has to be looked up before it is enqueued.
pub fn asks_for_adoption(definition: &ValidatedDynamicIndexDefinition) -> (asks: bool)
    ensures
        asks == may_adopt(*definition),
{
    match definition {
        ValidatedDynamicIndexDefinition::Vector(vector) => vector.tenant_property.is_none(),
        _ => false,
    }
}

/// A legacy namespace that lies above the watermark of ordinary allocation, with the
/// reservation stored for it.
#[derive(Debug, Clone, Copy, PartialEq, Eq, Structural)]
pub struct EligibleSource {
    pub physical_id: u64,
    pub reservation: Option<LegacyVectorPhysicalReservation>,
}

/// How a definition is built.
#[derive(Debug, Clone, Copy, PartialEq, Eq, Structural)]
pub enum EnqueuePlan {
    /// From the current source rows.
    Rebuild,
    /// In place, in the namespace of its legacy form.
    Adopt { physical_id: u64 },
}

/// Decides how a definition is built.
///
/// `unavailable` is the reason for which its family has no lifecycle now, and `source`
/// the legacy namespace that the definition may take over.
pub fn plan_enqueue(
    definition: &ValidatedDynamicIndexDefinition,
    unavailable: Option<IndexLifecycleUnavailableReason>,
    source: Option<EligibleSource>,
) -> (plan: Result<EnqueuePlan, HelixDbError>)
    ensures
        match unavailable {
            Some(reason) => plan == Err::<EnqueuePlan, HelixDbError>(
                HelixDbError::IndexLifecycleUnavailable {
                    family: failure_family(*definition),
                    reason,
                },
            ),
            None => if !may_adopt(*definition) || source is None {
                plan == Ok::<EnqueuePlan, HelixDbError>(EnqueuePlan::Rebuild)
            } else {
                match source->0.reservation {
                    Some(LegacyVectorPhysicalReservation::LegacySource) => plan == Ok::<
                        EnqueuePlan,
                        HelixDbError,
                    >(EnqueuePlan::Adopt { physical_id: source->0.physical_id }),
                    Some(_) => plan matches Err(error) && error.is_migration_required(
                        "eligible legacy vector reservation is already owned"@,
                    ),
                    None => plan matches Err(error) && error.is_migration_required(
                        "eligible legacy vector has no preflight reservation"@,
                    ),
                }
            },
        },
{
    if let Some(reason) = unavailable {
        let family = match definition {
            ValidatedDynamicIndexDefinition::Secondary(_) => IndexFamily::Secondary,
            ValidatedDynamicIndexDefinition::Vector(_) => IndexFamily::Vector,
            ValidatedDynamicIndexDefinition::Text(_) => IndexFamily::Text,
        };
        return Err(HelixDbError::IndexLifecycleUnavailable { family, reason });
    }
    if !asks_for_adoption(definition) {
        return Ok(EnqueuePlan::Rebuild);
    }
    let source = match source {
        Some(source) => source,
        None => {
            return Ok(EnqueuePlan::Rebuild);
        },
    };
    match source.reservation {
        Some(LegacyVectorPhysicalReservation::LegacySource) => Ok(
            EnqueuePlan::Adopt { physical_id: source.physical_id },
        ),
        Some(_) => Err(
            HelixDbError::MigrationRequired {
                reason: "eligible legacy vector reservation is already owned".to_owned(),
            },
        ),
        None => Err(
            HelixDbError::MigrationRequired {
                reason: "eligible legacy vector has no preflight reservation".to_owned(),
            },
        ),
    }
}

/// What an operation is about, as diagnostics show it.
#[derive(Debug)]
pub struct OperationSubject {
    pub operation: String,
    pub stage: String,
    pub family: String,
    pub attempt: u64,
}

/// Status of a lifecycle operation.
#[derive(Debug)]
pub enum OperationStatus {
    Queued,
    Running,
    /// Stopped for a cause that waiting does not remove.
    Blocked { invalid_source_data: bool, blocker: String },
    Succeeded,
    Aborted,
}

/// Whether a build has to be retried before waiting for it: a text build that stopped
/// at source data which has been repaired since.
pub fn retries_before_waiting(
    definition: &ValidatedDynamicIndexDefinition,
    status: &OperationStatus,
) -> (retries: bool)
    ensures
        retries == (definition@ is Text && (*status matches OperationStatus::Blocked {
            invalid_source_data,
            ..
        } && invalid_source_data)),
{
    match definition {
        ValidatedDynamicIndexDefinition::Text(_) => match status {
            OperationStatus::Blocked { invalid_source_data, .. } => *invalid_source_data,
            _ => false,
        },
        _ => false,
    }
}

/// What waiting for an operation does next.
#[derive(Debug, Clone, Copy, PartialEq, Eq, Structural)]
pub enum WaitStep {
    /// The operation has ended.
    Finished,
    /// Process one unit of secondary work, then look again; where there is no work
    /// left, `after_idle_scan` decides.
    StepSecondary,
    /// Wake the worker, wait a moment, then look again.
    WakeAndSleep,
}

/// The message about a blocked operation.
pub open spec fn blocked_message(subject: OperationSubject, blocker: Seq<char>) -> Seq<char> {
    "legacy definition operation "@ + subject.operation@ + " is blocked at "@ + subject.stage@
        + " for "@ + subject.family@ + ": "@ + blocker
}

/// The message about an operation that failed while this writer ran.
pub open spec fn transient_message(subject: OperationSubject) -> Seq<char> {
    "legacy definition operation "@ + subject.operation@
        + " encountered a transient lifecycle failure at "@ + subject.stage@ + " for "@
        + subject.family@ + " in the current writer epoch after attempt "@ + crate::text::decimal(
        subject.attempt as nat,
    )
}

/// The message about an operation that a complete scan has left unfinished.
pub open spec fn nonterminal_message(subject: OperationSubject) -> Seq<char> {
    "legacy definition operation "@ + subject.operation@
        + " remains nonterminal after a complete Disabled-mode queue scan at "@ + subject.stage@
        + " for "@ + subject.family@
}

fn blocked(subject: &OperationSubject, blocker: &String) -> (error: HelixDbError)
    ensures
        error.is_migration_required(blocked_message(*subject, blocker@)),
{
    let reason = joined3(
        "legacy definition operation ",
        subject.operation.as_str(),
        " is blocked at ",
    );
    let reason = joined3(reason.as_str(), subject.stage.as_str(), " for ");
    let reason = joined3(reason.as_str(), subject.family.as_str(), ": ");
    HelixDbError::MigrationRequired { reason: joined(reason.as_str(), blocker.as_str()) }
}

/// Decides what waiting for an operation does next.
///
/// `failed_in_epoch` says whether the operation has failed transiently while this
/// writer ran; `drives_secondary` whether the waiter itself does the work of the
/// disabled secondary worker.
pub fn wait_step(
    operation_id: IndexOperationId,
    found: Option<(&OperationSubject, &OperationStatus)>,
    failed_in_epoch: bool,
    drives_secondary: bool,
) -> (step: Result<WaitStep, HelixDbError>)
    ensures
        match found {
            None => step matches Err(error) && error.is_operation_not_found(
                crate::operation_text::hyphenated(operation_id.0),
            ),
            Some((subject, status)) => if failed_in_epoch {
                step matches Err(error) && error.is_migration_required(transient_message(*subject))
            } else {
                match *status {
                    OperationStatus::Succeeded | OperationStatus::Aborted => step == Ok::<
                        WaitStep,
                        HelixDbError,
                    >(WaitStep::Finished),
                    OperationStatus::Blocked { blocker, .. } => step matches Err(error)
                        && error.is_migration_required(blocked_message(*subject, blocker@)),
                    OperationStatus::Queued | OperationStatus::Running => step == Ok::<
                        WaitStep,
                        HelixDbError,
                    >(
                        if drives_secondary {
                            WaitStep::StepSecondary
                        } else {
                            WaitStep::WakeAndSleep
                        },
                    ),
                }
            },
        },
{
    let (subject, status) = match found {
        Some(found) => found,
        None => {
            return Err(HelixDbError::IndexOperationNotFound { operation_id: operation_id.text() });
        },
    };
    if failed_in_epoch {
        let reason = joined3(
            "legacy definition operation ",
            subject.operation.as_str(),
            " encountered a transient lifecycle failure at ",
        );
        let reason = joined3(reason.as_str(), subject.stage.as_str(), " for ");
        let reason = joined3(
            reason.as_str(),
            subject.family.as_str(),
            " in the current writer epoch after attempt ",
        );
        let attempt = decimal_text(subject.attempt);
        return Err(
            HelixDbError::MigrationRequired { reason: joined(reason.as_str(), attempt.as_str()) },
        );
    }
    match status {
        OperationStatus::Succeeded | OperationStatus::Aborted => Ok(WaitStep::Finished),
        OperationStatus::Blocked { blocker, .. } => Err(blocked(subject, blocker)),
        OperationStatus::Queued | OperationStatus::Running => {
            if drives_secondary {
                Ok(WaitStep::StepSecondary)
            } else {
                Ok(WaitStep::WakeAndSleep)
            }
        },
    }
}

/// Decides about an operation after a complete scan has found no secondary work.
pub fn after_idle_scan(subject: &OperationSubject, status: &OperationStatus) -> (done: Result<
    (),
    HelixDbError,
>)
    ensures
        match *status {
            OperationStatus::Succeeded | OperationStatus::Aborted => done is Ok,
            OperationStatus::Blocked { blocker, .. } => done matches Err(error)
                && error.is_migration_required(blocked_message(*subject, blocker@)),
            OperationStatus::Queued | OperationStatus::Running => done matches Err(error)
                && error.is_migration_required(nonterminal_message(*subject)),
        },
{
    match status {
        OperationStatus::Succeeded | OperationStatus::Aborted => Ok(()),
        OperationStatus::Blocked { blocker, .. } => Err(blocked(subject, blocker)),
        OperationStatus::Queued | OperationStatus::Running => {
            let reason = joined3(
                "legacy definition operation ",
                subject.operation.as_str(),
                " remains nonterminal after a complete Disabled-mode queue scan at ",
            );
            let reason = joined3(reason.as_str(), subject.stage.as_str(), " for ");
            Err(
                HelixDbError::MigrationRequired {
                    reason: joined(reason.as_str(), subject.family.as_str()),
                },
            )
        },
    }
}

/// What leaves storage when a legacy row is retired.
#[derive(Debug, Clone, Copy, PartialEq, Eq, Structural)]
pub enum RetirementPlan {
    /// The physical rows of the definition and the catalog row.
    PhysicalRowsAndRow,
    /// The catalog row.
    RowOnly,
    /// Nothing: the row has gone with an adoption.
    Nothing,
}

/// Whether a record is the live form of exactly this definition.
pub open spec fn is_live_form(
    current: IndexRecord,
    expected: ValidatedDynamicIndexDefinition,
) -> bool {
    current.definition@ == expected@ && current.state is Active
}

/// Whether a record holds its legacy namespace by exactly this reservation.
pub open spec fn owns_by_adoption(
    current: IndexRecord,
    reservation: Option<LegacyVectorPhysicalReservation>,
) -> bool {
    reservation == Some(
        LegacyVectorPhysicalReservation::AdoptedActive {
            index_id: current.index_id,
            generation: current.generation,
        },
    )
}

/// Decides what leaves storage when one legacy row is retired.
///
/// `expected` is the definition of the row, or nothing for a tombstone, and
/// `reservation` the one stored for the namespace of `current`.
pub fn plan_row_retirement(
    expected: Option<&ValidatedDynamicIndexDefinition>,
    row_present: bool,
    current: Option<&IndexRecord>,
    reservation: Option<LegacyVectorPhysicalReservation>,
) -> (plan: Result<RetirementPlan, HelixDbError>)
    ensures
        match (expected, current) {
            (Some(expected), Some(current)) => if !is_live_form(*current, *expected) {
                plan matches Err(error) && error.is_migration_required(
                    "legacy definition retirement lost exact V2 ownership"@,
                )
            } else if row_present {
                plan == Ok::<RetirementPlan, HelixDbError>(RetirementPlan::PhysicalRowsAndRow)
            } else if !(current.physical is VectorUnpartitioned) {
                plan matches Err(error) && error.is_migration_required(
                    "legacy definition disappeared without adopted vector ownership"@,
                )
            } else if !may_adopt(*expected) || !owns_by_adoption(*current, reservation) {
                plan matches Err(error) && error.is_migration_required(
                    "legacy definition disappeared without exact adopted vector ownership"@,
                )
            } else {
                plan == Ok::<RetirementPlan, HelixDbError>(RetirementPlan::Nothing)
            },
            (None, current) => if row_present && (current matches Some(current)
                ==> current.state is Dropped) {
                plan == Ok::<RetirementPlan, HelixDbError>(RetirementPlan::RowOnly)
            } else {
                plan matches Err(error) && error.is_migration_required(
                    "legacy definition retirement lost exact V2 ownership"@,
                )
            },
            (Some(_), None) => plan matches Err(error) && error.is_migration_required(
                "legacy definition retirement lost exact V2 ownership"@,
            ),
        },
{
    match (expected, current) {
        (Some(expected), Some(current)) => {
            let active = matches!(current.state, IndexState::Active);
            if !active || !current.definition.same_as(expected) {
                return Err(lost_ownership());
            }
            if row_present {
                return Ok(RetirementPlan::PhysicalRowsAndRow);
            }
            match current.physical {
                PhysicalLayout::VectorUnpartitioned { .. } => {},
                _ => {
                    return Err(
                        HelixDbError::MigrationRequired {
                            reason:
                                "legacy definition disappeared without adopted vector ownership"
                                .to_owned(),
                        },
                    );
                },
            }
            let owned = match reservation {
                Some(LegacyVectorPhysicalReservation::AdoptedActive { index_id, generation }) =>
                    index_id == current.index_id && generation == current.generation,
                _ => false,
            };
            if asks_for_adoption(expected) && owned {
                Ok(RetirementPlan::Nothing)
            } else {
                Err(
                    HelixDbError::MigrationRequired {
                        reason:
                            "legacy definition disappeared without exact adopted vector ownership"
                            .to_owned(),
                    },
                )
            }
        },
        (None, None) => {
            if row_present {
                Ok(RetirementPlan::RowOnly)
            } else {
                Err(lost_ownership())
            }
        },
        (None, Some(current)) => match current.state {
            IndexState::Dropped => if row_present {
                Ok(RetirementPlan::RowOnly)
            } else {
                Err(lost_ownership())
            },
            _ => Err(lost_ownership()),
        },
        (Some(_), None) => Err(lost_ownership()),
    }
}

fn lost_ownership() -> (error: HelixDbError)
    ensures
        error.is_migration_required("legacy definition retirement lost exact V2 ownership"@),
{
    HelixDbError::MigrationRequired {
        reason: "legacy definition retirement lost exact V2 ownership".to_owned(),
    }
}

/// Order in which a legacy range lane is stored.
#[derive(Debug, Clone, Copy, PartialEq, Eq, Structural)]
pub enum LegacyRangeDirection {
    Asc,
    Desc,
}

/// The lane order of a range index.
pub fn legacy_range_direction(direction: RangeIndexDirection) -> (lane: LegacyRangeDirection)
    ensures
        lane is Asc <==> direction is Asc,
        lane is Desc <==> direction is Desc,
{
    match direction {
        RangeIndexDirection::Asc => LegacyRangeDirection::Asc,
        RangeIndexDirection::Desc => LegacyRangeDirection::Desc,
    }
}

/// Physical rows that a legacy definition leaves behind.
#[derive(Debug, Clone, Copy, PartialEq, Eq, Structural)]
pub enum LegacyRowGroup {
    NodeEquality,
    NodeRange(LegacyRangeDirection),
    EdgeEquality,
    GlobalEdgeEquality,
    EdgeRange(LegacyRangeDirection),
    GlobalEdgeRange(LegacyRangeDirection),
    /// Every manifest of the definition, each with the live state, the transaction
    /// guard and the version counter of its namespace.
    TextManifests,
}

/// The lane order that stands for a direction.
pub open spec fn lane(direction: RangeIndexDirection) -> LegacyRangeDirection {
    match direction {
        RangeIndexDirection::Asc => LegacyRangeDirection::Asc,
        RangeIndexDirection::Desc => LegacyRangeDirection::Desc,
    }
}

/// Lists the physical rows that leave with a legacy definition, in the order in which
/// they are deleted.
pub fn legacy_physical_rows(definition: &ValidatedDynamicIndexDefinition) -> (rows: Result<
    Vec<LegacyRowGroup>,
    HelixDbError,
>)
    ensures
        match *definition {
            ValidatedDynamicIndexDefinition::Secondary(definition) => rows matches Ok(rows)
                && rows@ == match (definition.element_type, definition.kind) {
                (IndexElementKind::Node, SecondaryIndexKind::Equality) => seq![
                    LegacyRowGroup::NodeEquality,
                ],
                (IndexElementKind::Node, SecondaryIndexKind::Range) => seq![
                    LegacyRowGroup::NodeRange(lane(definition.direction)),
                ],
                (IndexElementKind::Edge, SecondaryIndexKind::Equality) => seq![
                    LegacyRowGroup::EdgeEquality,
                    LegacyRowGroup::GlobalEdgeEquality,
                ],
                (IndexElementKind::Edge, SecondaryIndexKind::Range) => seq![
                    LegacyRowGroup::EdgeRange(lane(definition.direction)),
                    LegacyRowGroup::GlobalEdgeRange(lane(definition.direction)),
                ],
            },
            ValidatedDynamicIndexDefinition::Vector(_) => rows matches Err(error)
                && error.is_invariant_violation(
                "vector definitions must retire through the bounded physical cleanup job"@,
            ),
            ValidatedDynamicIndexDefinition::Text(_) => rows matches Ok(rows) && rows@ == seq![
                LegacyRowGroup::TextManifests,
            ],
        },
{
    let mut rows: Vec<LegacyRowGroup> = Vec::new();
    match definition {
        ValidatedDynamicIndexDefinition::Secondary(definition) => {
            let direction = legacy_range_direction(definition.direction);
            match (definition.element_type, definition.kind) {
                (IndexElementKind::Node, SecondaryIndexKind::Equality) => {
                    rows.push(LegacyRowGroup::NodeEquality);
                },
                (IndexElementKind::Node, SecondaryIndexKind::Range) => {
                    rows.push(LegacyRowGroup::NodeRange(direction));
                },
                (IndexElementKind::Edge, SecondaryIndexKind::Equality) => {
                    rows.push(LegacyRowGroup::EdgeEquality);
                    rows.push(LegacyRowGroup::GlobalEdgeEquality);
                },
                (IndexElementKind::Edge, SecondaryIndexKind::Range) => {
                    rows.push(LegacyRowGroup::EdgeRange(direction));
                    rows.push(LegacyRowGroup::GlobalEdgeRange(direction));
                },
            }
        },
        ValidatedDynamicIndexDefinition::Vector(_) => {
            return Err(
                HelixDbError::InvariantViolation(
                    "vector definitions must retire through the bounded physical cleanup job"
                        .to_owned(),
                ),
            );
        },
        ValidatedDynamicIndexDefinition::Text(_) => {
            rows.push(LegacyRowGroup::TextManifests);
        },
    }
    Ok(rows)
}

/// A record converges exactly when it is active; a dropped one is enqueued anew; and where an
/// operation is at work, that very operation is waited for, as a build where it builds.
pub proof fn law_records_converge_when_active(state: IndexState, operation_id: IndexOperationId)
    ensures
        step_for(state) is Converged <==> state is Active,
        step_for(state) is Enqueue <==> state is Dropped,
        step_for(state) == (ConvergenceStep::AwaitBuild { operation_id }) <==> state == (
        IndexState::Building { build_operation_id: operation_id }),
        step_for(state) == (ConvergenceStep::Await { operation_id }) <==> (state == (
        IndexState::Aborting { build_operation_id: operation_id }) || state == (
        IndexState::Dropping { drop_operation_id: operation_id })),
{
}

/// A failure of the lifecycle names the family of the definition.
pub proof fn law_failures_name_the_family(definition: ValidatedDynamicIndexDefinition)
    ensures
        failure_family(definition) is Secondary <==> definition@ is Secondary,
        failure_family(definition) is Vector <==> definition@ is Vector,
        failure_family(definition) is Text <==> definition@ is Text,
{
}

/// A namespace is taken over by a vector index of one partition, and by nothing else.
pub proof fn law_only_single_partition_vectors_adopt(definition: ValidatedDynamicIndexDefinition)
    ensures
        definition is Secondary || definition is Text ==> !may_adopt(definition),
        definition matches ValidatedDynamicIndexDefinition::Vector(vector) ==> (may_adopt(
            definition,
        ) <==> vector.tenant_property is None),
{
}

/// Ownership by adoption is exact: one reservation gives it, to one index in one generation.
pub proof fn law_adopted_ownership_is_exact(
    current: IndexRecord,
    index_id: u64,
    generation: u64,
    operation_id: IndexOperationId,
)
    ensures
        owns_by_adoption(
            current,
            Some(LegacyVectorPhysicalReservation::AdoptedActive { index_id, generation }),
        ) <==> current.index_id == index_id && current.generation == generation,
        !owns_by_adoption(current, None),
        !owns_by_adoption(current, Some(LegacyVectorPhysicalReservation::LegacySource)),
        !owns_by_adoption(
            current,
            Some(
                LegacyVectorPhysicalReservation::AdoptionBuilding {
                    index_id,
                    generation,
                    operation_id,
                },
            ),
        ),
        !owns_by_adoption(
            current,
            Some(LegacyVectorPhysicalReservation::RetiringSource { index_id, generation }),
        ),
{
}

/// A record is the live form of a definition exactly when it converges on it.
pub proof fn law_live_forms_have_converged(
    current: IndexRecord,
    expected: ValidatedDynamicIndexDefinition,
)
    ensures
        is_live_form(current, expected) <==> current.definition@ == expected@ && step_for(
            current.state,
        ) is Converged,
        is_live_form(current, expected) ==> current.state is Active,
{
}

/// What is said of an operation names it, its stage and its family, and what stopped it.
pub proof fn law_messages_name_the_operation(subject: OperationSubject, blocker: Seq<char>)
    ensures
        blocked_message(subject, blocker) == "legacy definition operation "@ + subject.operation@
            + " is blocked at "@ + subject.stage@ + " for "@ + subject.family@ + ": "@ + blocker,
        transient_message(subject) == "legacy definition operation "@ + subject.operation@
            + " encountered a transient lifecycle failure at "@ + subject.stage@ + " for "@
            + subject.family@ + " in the current writer epoch after attempt "@
            + crate::text::decimal(subject.attempt as nat),
        nonterminal_message(subject) == "legacy definition operation "@ + subject.operation@
            + " remains nonterminal after a complete Disabled-mode queue scan at "@
            + subject.stage@ + " for "@ + subject.family@,
{
}

/// A lane runs in the direction of its index.
pub proof fn law_lanes_run_in_the_direction(direction: RangeIndexDirection)
    ensures
        lane(direction) is Asc <==> direction is Asc,
        lane(direction) is Desc <==> direction is Desc,
{
}

} // verus!
