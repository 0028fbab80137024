//! Requests that change indexes, and when a handle takes them.
use vstd::prelude::*;

use crate::config::SecondaryIndexLifecycleWorkerMode;
use crate::error::{HelixDbError, IndexFamily, IndexLifecycleUnavailableReason};
use crate::migrations::definitions::{
    IndexDefinitionFamily, IndexIdentityFamily, ValidatedDynamicIndexDefinition,
};
use crate::migrations::records::{IndexOperationId, IndexRecord};
use crate::mode::HelixDbMode;
use crate::scope::DataScope;

verus! {

/// Returns why one family cannot cross the public lifecycle boundary.
pub fn index_lifecycle_unavailable_reason(family: IndexFamily) -> (reason: Option<
    IndexLifecycleUnavailableReason,
>)
    ensures
        reason == unavailable_reason(family),
{
    match family {
        IndexFamily::Secondary | IndexFamily::Vector | IndexFamily::Text => None,
        IndexFamily::DynamicIndexes => Some(
            IndexLifecycleUnavailableReason::MutationMaintenanceUnavailable,
        ),
    }
}

/// Why one family cannot cross the public lifecycle boundary.
pub open spec fn unavailable_reason(family: IndexFamily) -> Option<
    IndexLifecycleUnavailableReason,
> {
    match family {
        IndexFamily::DynamicIndexes => Some(
            IndexLifecycleUnavailableReason::MutationMaintenanceUnavailable,
        ),
        _ => None,
    }
}

/// The family of a definition in lifecycle failures.
pub fn definition_family(family: IndexDefinitionFamily) -> (reported: IndexFamily)
    ensures
        reported == match family {
            IndexDefinitionFamily::Secondary => IndexFamily::Secondary,
            IndexDefinitionFamily::Vector => IndexFamily::Vector,
            IndexDefinitionFamily::Text => IndexFamily::Text,
        },
{
    match family {
        IndexDefinitionFamily::Secondary => IndexFamily::Secondary,
        IndexDefinitionFamily::Vector => IndexFamily::Vector,
        IndexDefinitionFamily::Text => IndexFamily::Text,
    }
}

/// The family of an identity in lifecycle failures.
pub fn identity_family(family: IndexIdentityFamily) -> (reported: IndexFamily)
    ensures
        reported == match family {
            IndexIdentityFamily::SecondaryEquality => IndexFamily::Secondary,
            IndexIdentityFamily::SecondaryRange => IndexFamily::Secondary,
            IndexIdentityFamily::Vector => IndexFamily::Vector,
            IndexIdentityFamily::Text => IndexFamily::Text,
        },
{
    match family {
        IndexIdentityFamily::SecondaryEquality | IndexIdentityFamily::SecondaryRange =>
            IndexFamily::Secondary,
        IndexIdentityFamily::Vector => IndexFamily::Vector,
        IndexIdentityFamily::Text => IndexFamily::Text,
    }
}

/// Decides whether a handle takes a request that changes an index of a family.
pub fn accept_index_change(mode: HelixDbMode, family: IndexFamily) -> (accepted: Result<
    (),
    HelixDbError,
>)
    ensures
        match unavailable_reason(family) {
            Some(reason) => accepted == Err::<(), HelixDbError>(
                HelixDbError::IndexLifecycleUnavailable { family, reason },
            ),
            None => if mode is Writer {
                accepted is Ok
            } else {
                accepted matches Err(error) && mode.is_refusal(error)
            },
        },
{
    if let Some(reason) = index_lifecycle_unavailable_reason(family) {
        return Err(HelixDbError::IndexLifecycleUnavailable { family, reason });
    }
    mode.require_writer()
}

/// Decides whether a handle takes the creation of an index.
pub fn accept_index_create(
    mode: HelixDbMode,
    definition: &ValidatedDynamicIndexDefinition,
) -> (accepted: Result<(), HelixDbError>)
    ensures
        accepted is Ok <==> mode is Writer,
        accepted matches Err(error) ==> mode.is_refusal(error),
{
    accept_index_change(mode, definition_family(definition.family()))
}

/// Decides whether a handle takes the drop of an identity of a family.
pub fn accept_index_drop(mode: HelixDbMode, family: IndexIdentityFamily) -> (accepted: Result<
    (),
    HelixDbError,
>)
    ensures
        accepted is Ok <==> mode is Writer,
        accepted matches Err(error) ==> mode.is_refusal(error),
{
    accept_index_change(mode, identity_family(family))
}

/// Finds the record that a drop is about; `shown` is the identity in diagnostics.
pub fn record_to_drop<'a>(record: Option<&'a IndexRecord>, shown: String) -> (found: Result<
    &'a IndexRecord,
    HelixDbError,
>)
    ensures
        match record {
            Some(record) => found matches Ok(found) && *found == *record,
            None => found matches Err(HelixDbError::IndexNotFound(text)) && text@ == shown@,
        },
{
    match record {
        Some(record) => Ok(record),
        None => Err(HelixDbError::IndexNotFound(shown)),
    }
}

/// Where a lifecycle operation stands.
#[derive(Debug, Clone, Copy, PartialEq, Eq, Structural)]
pub enum OperationExecutionState {
    Queued,
    Running,
    Blocked,
    Succeeded,
    Aborted,
}

/// Whether the worker is woken after an operation was retried or aborted.
pub fn wakes_worker(state: OperationExecutionState) -> (wakes: bool)
    ensures
        wakes == (state is Queued),
{
    matches!(state, OperationExecutionState::Queued)
}

/// The failure of a lookup that found no operation. An operation of another scope is no
/// different from an unknown one.
pub fn operation_not_found(operation_id: IndexOperationId) -> (error: HelixDbError)
    ensures
        error.is_operation_not_found(crate::operation_text::hyphenated(operation_id.0)),
{
    HelixDbError::IndexOperationNotFound { operation_id: operation_id.text() }
}

/// The operation that is retained under an id in exactly a scope, as a mathematical value.
pub open spec fn retained_in<S>(
    retained: Map<(DataScope, IndexOperationId), S>,
    scope: DataScope,
    operation_id: IndexOperationId,
) -> Option<S> {
    if retained.contains_key((scope, operation_id)) {
        Some(retained[(scope, operation_id)])
    } else {
        None
    }
}

/// Whether this is the answer to the lookup of an operation, whatever the mode of the
/// handle is.
pub open spec fn answers_lookup<S>(
    retained: Option<S>,
    operation_id: IndexOperationId,
    answer: Result<S, HelixDbError>,
) -> bool {
    match retained {
        Some(found) => answer == Ok::<S, HelixDbError>(found),
        None => answer matches Err(error) && error.is_operation_not_found(
            crate::operation_text::hyphenated(operation_id.0),
        ),
    }
}

/// Answers the lookup of an operation with what is retained under its id in exactly the
/// scope of the lookup.
pub fn get_index_operation<S>(retained: Option<S>, operation_id: IndexOperationId) -> (answer:
    Result<S, HelixDbError>)
    ensures
        answers_lookup(retained, operation_id, answer),
{
    match retained {
        Some(found) => Ok(found),
        None => Err(operation_not_found(operation_id)),
    }
}

/// A lookup in the wrong scope cannot be told from one of an unknown operation: both fail,
/// with the text of the id that was asked for and nothing else, while the lookup in the
/// scope of the operation finds it.
pub proof fn law_wrong_scope_is_an_unknown_operation<S>(
    retained: Map<(DataScope, IndexOperationId), S>,
    scope: DataScope,
    wrong: DataScope,
    operation_id: IndexOperationId,
    unknown: IndexOperationId,
    in_scope: Result<S, HelixDbError>,
    in_wrong: Result<S, HelixDbError>,
    of_unknown: Result<S, HelixDbError>,
)
    requires
        retained.contains_key((scope, operation_id)),
        !retained.contains_key((wrong, operation_id)),
        !retained.contains_key((scope, unknown)),
        answers_lookup(retained_in(retained, scope, operation_id), operation_id, in_scope),
        answers_lookup(retained_in(retained, wrong, operation_id), operation_id, in_wrong),
        answers_lookup(retained_in(retained, scope, unknown), unknown, of_unknown),
    ensures
        in_scope == Ok::<S, HelixDbError>(retained[(scope, operation_id)]),
        in_wrong matches Err(error) && error.is_operation_not_found(
            crate::operation_text::hyphenated(operation_id.0),
        ),
        of_unknown matches Err(error) && error.is_operation_not_found(
            crate::operation_text::hyphenated(unknown.0),
        ),
{
}

/// Decides whether one step of secondary work may be processed on request.
///
/// `open` says whether the handle is open, and `writer_epoch` names the epoch of its
/// worker while there is one.
pub fn accept_secondary_step(
    mode: HelixDbMode,
    worker: SecondaryIndexLifecycleWorkerMode,
    open: bool,
    writer_epoch: Option<u64>,
) -> (epoch: Result<u64, HelixDbError>)
    ensures
        if mode is ReadOnly {
            epoch matches Err(error) && mode.is_refusal(error)
        } else if worker is Enabled {
            epoch == Err::<u64, HelixDbError>(
                HelixDbError::SecondaryLifecycleSteppingRequiresDisabledMode,
            )
        } else if !open || writer_epoch is None {
            epoch == Err::<u64, HelixDbError>(HelixDbError::DatabaseClosed)
        } else {
            epoch == Ok::<u64, HelixDbError>(writer_epoch->0)
        },
{
    match mode.require_writer() {
        Ok(_) => {},
        Err(error) => {
            return Err(error);
        },
    }
    match worker {
        SecondaryIndexLifecycleWorkerMode::Enabled => {
            return Err(HelixDbError::SecondaryLifecycleSteppingRequiresDisabledMode);
        },
        SecondaryIndexLifecycleWorkerMode::Disabled => {},
    }
    if !open {
        return Err(HelixDbError::DatabaseClosed);
    }
    worker_epoch(writer_epoch)
}

/// The epoch of the worker, which a closed handle has no more.
pub fn worker_epoch(writer_epoch: Option<u64>) -> (epoch: Result<u64, HelixDbError>)
    ensures
        epoch == match writer_epoch {
            Some(epoch) => Ok::<u64, HelixDbError>(epoch),
            None => Err::<u64, HelixDbError>(HelixDbError::DatabaseClosed),
        },
{
    match writer_epoch {
        Some(epoch) => Ok(epoch),
        None => Err(HelixDbError::DatabaseClosed),
    }
}

/// Limits of secondary work as they are configured; all are positive.
#[derive(Debug, Clone, Copy, PartialEq, Eq, Structural)]
pub struct SecondaryTuning {
    pub batch_rows: u64,
    pub max_input_bytes: u64,
    pub max_output_operations: u64,
    pub max_output_bytes: u64,
}

/// Limits of one batch of index work.
#[derive(Debug, Clone, Copy, PartialEq, Eq, Structural)]
pub struct SearchIndexBatchLimits {
    pub rows: u64,
    pub input_bytes: u64,
    pub output_operations: u64,
    pub output_bytes: u64,
    /// Largest single artifact of the batch.
    pub artifact_bytes: u64,
}

/// The batch limits of secondary work: an artifact may fill the whole output.
pub fn secondary_batch_limits(tuning: SecondaryTuning) -> (limits: SearchIndexBatchLimits)
    ensures
        limits == (SearchIndexBatchLimits {
            rows: tuning.batch_rows,
            input_bytes: tuning.max_input_bytes,
            output_operations: tuning.max_output_operations,
            output_bytes: tuning.max_output_bytes,
            artifact_bytes: tuning.max_output_bytes,
        }),
{
    SearchIndexBatchLimits {
        rows: tuning.batch_rows,
        input_bytes: tuning.max_input_bytes,
        output_operations: tuning.max_output_operations,
        output_bytes: tuning.max_output_bytes,
        artifact_bytes: tuning.max_output_bytes,
    }
}

/// Whether a handle starts an index worker.
pub fn starts_index_worker(mode: HelixDbMode) -> (starts: bool)
    ensures
        starts == (mode is Writer),
{
    matches!(mode, HelixDbMode::Writer)
}

/// Every family but the dynamic one crosses the public lifecycle boundary.
pub proof fn law_families_cross_the_boundary(family: IndexFamily)
    ensures
        unavailable_reason(family) is None <==> family is Secondary || family is Vector || family
            is Text,
        unavailable_reason(IndexFamily::DynamicIndexes) == Some(
            IndexLifecycleUnavailableReason::MutationMaintenanceUnavailable,
        ),
{
}

/// A lookup gives back exactly what is retained in its scope under its id.
pub proof fn law_lookups_find_what_is_retained<S>(
    retained: Map<(DataScope, IndexOperationId), S>,
    scope: DataScope,
    operation_id: IndexOperationId,
    answer: Result<S, HelixDbError>,
)
    requires
        answers_lookup(retained_in(retained, scope, operation_id), operation_id, answer),
    ensures
        answer is Ok <==> retained.contains_key((scope, operation_id)),
        answer matches Ok(found) ==> found == retained[(scope, operation_id)],
{
}

/// A lookup of what is not retained names the operation that was looked for.
pub proof fn law_failed_lookups_name_the_operation<S>(
    operation_id: IndexOperationId,
    answer: Result<S, HelixDbError>,
)
    requires
        answers_lookup(None, operation_id, answer),
    ensures
        answer matches Err(error) && error.is_operation_not_found(
            crate::operation_text::hyphenated(operation_id.0),
        ),
{
}

} // verus!
