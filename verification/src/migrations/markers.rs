//! Readiness markers of the storage schema.
use vstd::prelude::*;

use super::keys::scoped_metadata_key;
use crate::error::HelixDbError;
use crate::text::{joined, joined3, truth_text};

verus! {

/// Byte that a published marker holds.
pub const READY: u8 = 0x31;

/// Durable fact that a marker publishes.
#[derive(Debug, Clone, Copy, PartialEq, Eq, Structural)]
pub enum ReadinessMarker {
    /// The graph-format rewrite is complete.
    GraphFormatV1,
    /// Graph and legacy-definition migration is complete.
    IndexV2Catalog,
    /// Every tenant-owned physical key uses the one-byte envelope.
    TenantKeyEnvelope,
    /// Obsolete managed-index rows were removed.
    IndexStorageV4Cleanup,
    /// The full writer-open pipeline completed.
    StorageSchemaComplete,
}

impl ReadinessMarker {
    /// Metadata name of the marker.
    pub open spec fn name_spec(self) -> Seq<char> {
        match self {
            ReadinessMarker::GraphFormatV1 => "kv_migration_ready:graph_format_v1"@,
            ReadinessMarker::IndexV2Catalog => "kv_migration_ready:index_v2_catalog_v1"@,
            ReadinessMarker::TenantKeyEnvelope => "kv_migration_ready:tenant_key_envelope_v1"@,
            ReadinessMarker::IndexStorageV4Cleanup =>
                "kv_migration_ready:index_storage_v4_cleanup"@,
            ReadinessMarker::StorageSchemaComplete => "storage_schema_complete:v1"@,
        }
    }

    /// Metadata name of the marker.
    pub fn name(self) -> (name: &'static str)
        ensures
            name@ == self.name_spec(),
    {
        match self {
            ReadinessMarker::GraphFormatV1 => "kv_migration_ready:graph_format_v1",
            ReadinessMarker::IndexV2Catalog => "kv_migration_ready:index_v2_catalog_v1",
            ReadinessMarker::TenantKeyEnvelope => "kv_migration_ready:tenant_key_envelope_v1",
            ReadinessMarker::IndexStorageV4Cleanup =>
                "kv_migration_ready:index_storage_v4_cleanup",
            ReadinessMarker::StorageSchemaComplete => "storage_schema_complete:v1",
        }
    }

    /// Physical key of the marker inside the scope that owns it.
    pub fn key(self, scope_prefix: &[u8]) -> (key: Vec<u8>)
        ensures
            key@ == super::keys::metadata_key(
                scope_prefix@,
                vstd::utf8::encode_utf8(self.name_spec()),
            ),
    {
        scoped_metadata_key(scope_prefix, self.name().as_bytes())
    }
}

/// Metadata of the legacy catalog that goes when its migration is published.
pub fn legacy_catalog_metadata_names() -> (names: Vec<&'static str>)
    ensures
        names@.len() == 3,
        names@[0]@ == "dynamic_index_catalog_blob"@,
        names@[1]@ == "dynamic_index_catalog_token"@,
        names@[2]@ == "dynamic_index_manifest_ack_token"@,
{
    let mut names: Vec<&'static str> = Vec::new();
    names.push("dynamic_index_catalog_blob");
    names.push("dynamic_index_catalog_token");
    names.push("dynamic_index_manifest_ack_token");
    names
}

/// Whether a stored value is that of a published marker.
pub open spec fn is_ready_value(value: Seq<u8>) -> bool {
    value == seq![READY]
}

/// Whether a marker was published.
pub open spec fn is_published(value: Option<Seq<u8>>) -> bool {
    value matches Some(value) && is_ready_value(value)
}

/// Whether a stored value is neither absent nor that of a published marker.
pub open spec fn is_malformed(value: Option<Seq<u8>>) -> bool {
    value matches Some(value) && !is_ready_value(value)
}

/// A stored value as a mathematical value.
pub open spec fn stored(value: Option<&[u8]>) -> Option<Seq<u8>> {
    match value {
        Some(value) => Some(value@),
        None => None,
    }
}

/// The value of a published marker.
pub fn ready_value() -> (value: Vec<u8>)
    ensures
        is_ready_value(value@),
{
    let mut value: Vec<u8> = Vec::new();
    value.push(READY);
    assert(value@ =~= seq![READY]);
    value
}

/// Reads a marker leniently: anything but the published value means not ready.
///
/// The readiness of the graph format, of the index catalog and of the whole schema is
/// asked for in this way.
pub fn marker_is_published(value: Option<&[u8]>) -> (published: bool)
    ensures
        published == is_published(stored(value)),
{
    match value {
        Some(value) => {
            let ready = value.len() == 1 && value[0] == READY;
            assert(ready ==> value@ =~= seq![READY]);
            ready
        },
        None => false,
    }
}

fn strict_marker(value: Option<&[u8]>, malformed: String) -> (ready: Result<bool, HelixDbError>)
    ensures
        match ready {
            Ok(ready) => !is_malformed(stored(value)) && ready == is_published(stored(value)),
            Err(error) => is_malformed(stored(value)) && error.is_migration_required(malformed@),
        },
{
    if value.is_none() {
        Ok(false)
    } else if marker_is_published(value) {
        Ok(true)
    } else {
        Err(HelixDbError::MigrationRequired { reason: malformed })
    }
}

/// Reads whether obsolete managed-index rows were removed.
pub fn index_storage_v4_cleanup_ready(value: Option<&[u8]>) -> (ready: Result<bool, HelixDbError>)
    ensures
        match ready {
            Ok(ready) => !is_malformed(stored(value)) && ready == is_published(stored(value)),
            Err(error) => is_malformed(stored(value)) && error.is_migration_required(
                "index storage V4 cleanup readiness marker is malformed"@,
            ),
        },
{
    strict_marker(
        value,
        "index storage V4 cleanup readiness marker is malformed".to_owned(),
    )
}

/// Reads whether every tenant-owned physical key uses the one-byte envelope.
pub fn tenant_key_envelope_ready(value: Option<&[u8]>) -> (ready: Result<bool, HelixDbError>)
    ensures
        match ready {
            Ok(ready) => !is_malformed(stored(value)) && ready == is_published(stored(value)),
            Err(error) => is_malformed(stored(value)) && error.is_migration_required(
                "tenant key envelope readiness marker is malformed"@,
            ),
        },
{
    strict_marker(value, "tenant key envelope readiness marker is malformed".to_owned())
}

/// Valid writer-resumable progress through the ordered storage-schema migration.
#[derive(Debug, Clone, Copy, PartialEq, Eq, Structural)]
pub enum StorageSchemaProgress {
    /// No readiness marker has been published.
    NotStarted,
    /// The graph-format migration is complete.
    GraphReady,
    /// Graph and index migrations are complete.
    IndexReady,
    /// Every writer-owned storage migration is complete.
    Complete,
}

/// The progress that published markers show, unless they are out of order.
pub open spec fn progress_of(graph: bool, index: bool, schema: bool) -> Option<
    StorageSchemaProgress,
> {
    if (index && !graph) || (schema && !index) {
        None
    } else if schema {
        Some(StorageSchemaProgress::Complete)
    } else if index {
        Some(StorageSchemaProgress::IndexReady)
    } else if graph {
        Some(StorageSchemaProgress::GraphReady)
    } else {
        Some(StorageSchemaProgress::NotStarted)
    }
}

/// The name of a malformed marker in its failure.
pub open spec fn malformed_message(name: Seq<char>) -> Seq<char> {
    "storage migration readiness marker "@ + name + " is malformed"@
}

fn schema_marker(name: &str, value: Option<&[u8]>) -> (ready: Result<bool, HelixDbError>)
    ensures
        match ready {
            Ok(ready) => !is_malformed(stored(value)) && ready == is_published(stored(value)),
            Err(error) => is_malformed(stored(value)) && error.is_migration_required(
                malformed_message(name@),
            ),
        },
{
    strict_marker(value, joined3("storage migration readiness marker ", name, " is malformed"))
}

/// Reads and strictly validates the ordered storage-schema readiness markers.
///
/// Missing markers encode incomplete work. Present markers must hold the exact
/// readiness value, and readiness may only advance in order.
pub fn storage_schema_progress(
    graph: Option<&[u8]>,
    index: Option<&[u8]>,
    schema: Option<&[u8]>,
) -> (progress: Result<StorageSchemaProgress, HelixDbError>)
    ensures
        ({
            let ready = (
                is_published(stored(graph)),
                is_published(stored(index)),
                is_published(stored(schema)),
            );
            if is_malformed(stored(graph)) {
                progress matches Err(error) && error.is_migration_required(
                    malformed_message("graph_format_v1"@),
                )
            } else if is_malformed(stored(index)) {
                progress matches Err(error) && error.is_migration_required(
                    malformed_message("index_v2_catalog_v1"@),
                )
            } else if is_malformed(stored(schema)) {
                progress matches Err(error) && error.is_migration_required(
                    malformed_message("storage_schema_complete_v1"@),
                )
            } else {
                match progress_of(ready.0, ready.1, ready.2) {
                    Some(expected) => progress matches Ok(progress) && progress == expected,
                    None => progress matches Err(error) && error.is_migration_required(
                        "storage migration readiness is not an ordered prefix (graph="@
                            + crate::text::truth(ready.0) + ", index="@ + crate::text::truth(
                            ready.1,
                        ) + ", schema="@ + crate::text::truth(ready.2) + ")"@,
                    ),
                }
            }
        }),
{
    let graph_ready = match schema_marker("graph_format_v1", graph) {
        Ok(ready) => ready,
        Err(error) => {
            return Err(error);
        },
    };
    let index_ready = match schema_marker("index_v2_catalog_v1", index) {
        Ok(ready) => ready,
        Err(error) => {
            return Err(error);
        },
    };
    let schema_ready = match schema_marker("storage_schema_complete_v1", schema) {
        Ok(ready) => ready,
        Err(error) => {
            return Err(error);
        },
    };
    match (graph_ready, index_ready, schema_ready) {
        (false, false, false) => Ok(StorageSchemaProgress::NotStarted),
        (true, false, false) => Ok(StorageSchemaProgress::GraphReady),
        (true, true, false) => Ok(StorageSchemaProgress::IndexReady),
        (true, true, true) => Ok(StorageSchemaProgress::Complete),
        _ => {
            let shown = joined(
                "storage migration readiness is not an ordered prefix (graph=",
                truth_text(graph_ready),
            );
            let shown = joined3(shown.as_str(), ", index=", truth_text(index_ready));
            let shown = joined3(shown.as_str(), ", schema=", truth_text(schema_ready));
            Err(HelixDbError::MigrationRequired { reason: joined(shown.as_str(), ")") })
        },
    }
}

/// What the end of the schema migration has to do.
#[derive(Debug, Clone, Copy, PartialEq, Eq, Structural)]
pub enum CompletionStep {
    /// The completion is published already.
    Skip,
    /// Publish the completion, if its prerequisites still hold in the transaction.
    Publish,
}

/// Decides whether the completion of the storage schema can be published.
pub fn plan_schema_completion(
    graph_ready: bool,
    index_ready: bool,
    legacy_catalog_empty: bool,
    already_complete: bool,
) -> (step: Result<CompletionStep, HelixDbError>)
    ensures
        if !graph_ready || !index_ready {
            step matches Err(error) && error.is_migration_required(
                "storage schema completion requires graph and index migration readiness"@,
            )
        } else if !legacy_catalog_empty {
            step matches Err(error) && error.is_migration_required(
                "storage schema completion requires an empty legacy index catalog"@,
            )
        } else {
            step matches Ok(step) && step == (if already_complete {
                CompletionStep::Skip
            } else {
                CompletionStep::Publish
            })
        },
{
    if !graph_ready || !index_ready {
        return Err(
            HelixDbError::MigrationRequired {
                reason: "storage schema completion requires graph and index migration readiness"
                    .to_owned(),
            },
        );
    }
    if !legacy_catalog_empty {
        return Err(
            HelixDbError::MigrationRequired {
                reason: "storage schema completion requires an empty legacy index catalog"
                    .to_owned(),
            },
        );
    }
    if already_complete {
        Ok(CompletionStep::Skip)
    } else {
        Ok(CompletionStep::Publish)
    }
}

/// Checks the prerequisites of the completion again inside its transaction.
pub fn confirm_schema_completion(
    graph_ready: bool,
    index_ready: bool,
    legacy_catalog_empty: bool,
) -> (confirmed: Result<(), HelixDbError>)
    ensures
        confirmed is Ok <==> graph_ready && index_ready && legacy_catalog_empty,
        confirmed matches Err(error) ==> error.is_migration_required(
            "storage schema prerequisites changed before completion publication"@,
        ),
{
    if graph_ready && index_ready && legacy_catalog_empty {
        Ok(())
    } else {
        Err(
            HelixDbError::MigrationRequired {
                reason: "storage schema prerequisites changed before completion publication"
                    .to_owned(),
            },
        )
    }
}

/// Publishing the markers in their order, each only where the one before it is
/// published, never leaves them out of order and makes exactly one step of progress.
pub proof fn law_ordered_publication_advances(graph: bool, index: bool, schema: bool)
    requires
        progress_of(graph, index, schema) is Some,
    ensures
        progress_of(graph, index, schema) == Some(StorageSchemaProgress::NotStarted)
            ==> progress_of(true, index, schema) == Some(StorageSchemaProgress::GraphReady),
        progress_of(graph, index, schema) == Some(StorageSchemaProgress::GraphReady)
            ==> progress_of(graph, true, schema) == Some(StorageSchemaProgress::IndexReady),
        progress_of(graph, index, schema) == Some(StorageSchemaProgress::IndexReady)
            ==> progress_of(graph, index, true) == Some(StorageSchemaProgress::Complete),
{
}

/// A complete schema shows that every marker before it is published.
pub proof fn law_completion_implies_every_stage(graph: bool, index: bool, schema: bool)
    requires
        progress_of(graph, index, schema) == Some(StorageSchemaProgress::Complete),
    ensures
        graph && index && schema,
{
}

/// A marker holds the digit one and nothing else; any other value is malformed, and no value
/// is neither published nor malformed.
pub proof fn law_markers_hold_one_digit(value: Seq<u8>)
    ensures
        is_ready_value(value) <==> value.len() == 1 && value[0] == 0x31,
        is_published(Some(value)) <==> value.len() == 1 && value[0] == 0x31,
        is_malformed(Some(value)) <==> !is_published(Some(value)),
        !is_published(None) && !is_malformed(None),
{
    if value.len() == 1 && value[0] == 0x31 {
        assert(value =~= seq![READY]);
    }
}

/// Markers stand under frozen names.
pub proof fn law_marker_names_are_frozen()
    ensures
        ReadinessMarker::GraphFormatV1.name_spec() == "kv_migration_ready:graph_format_v1"@,
        ReadinessMarker::IndexV2Catalog.name_spec() == "kv_migration_ready:index_v2_catalog_v1"@,
        ReadinessMarker::TenantKeyEnvelope.name_spec()
            == "kv_migration_ready:tenant_key_envelope_v1"@,
        ReadinessMarker::IndexStorageV4Cleanup.name_spec()
            == "kv_migration_ready:index_storage_v4_cleanup"@,
        ReadinessMarker::StorageSchemaComplete.name_spec() == "storage_schema_complete:v1"@,
{
}

/// No two markers share a name.
pub proof fn law_markers_are_told_apart(left: ReadinessMarker, right: ReadinessMarker)
    ensures
        left.name_spec() == right.name_spec() <==> left == right,
{
    reveal_strlit("kv_migration_ready:graph_format_v1");
    reveal_strlit("kv_migration_ready:index_v2_catalog_v1");
    reveal_strlit("kv_migration_ready:tenant_key_envelope_v1");
    reveal_strlit("kv_migration_ready:index_storage_v4_cleanup");
    reveal_strlit("storage_schema_complete:v1");
    assert(ReadinessMarker::GraphFormatV1.name_spec().len() == 34);
    assert(ReadinessMarker::IndexV2Catalog.name_spec().len() == 38);
    assert(ReadinessMarker::TenantKeyEnvelope.name_spec().len() == 41);
    assert(ReadinessMarker::IndexStorageV4Cleanup.name_spec().len() == 43);
    assert(ReadinessMarker::StorageSchemaComplete.name_spec().len() == 26);
}

/// Markers show progress exactly where each of them stands behind those before it, and the
/// progress is that of the last one.
pub proof fn law_progress_is_that_of_the_last_marker(graph: bool, index: bool, schema: bool)
    ensures
        progress_of(graph, index, schema) is Some <==> (index ==> graph) && (schema ==> index),
        progress_of(false, false, false) == Some(StorageSchemaProgress::NotStarted),
        progress_of(true, false, false) == Some(StorageSchemaProgress::GraphReady),
        progress_of(true, true, false) == Some(StorageSchemaProgress::IndexReady),
        progress_of(true, true, true) == Some(StorageSchemaProgress::Complete),
{
}

/// A stored value is seen as it is, and what is said of a malformed marker names it.
pub proof fn law_stored_values_are_seen(value: &[u8], name: Seq<char>)
    ensures
        stored(Some(value)) == Some(value@),
        stored(None) is None,
        malformed_message(name) == "storage migration readiness marker "@ + name
            + " is malformed"@,
{
}

} // verus!
