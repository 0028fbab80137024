//! Migration rules: markers, definitions, reservations, convergence, edges and verdicts.
use helix_db::error::{EncodingError, HelixDbError, IndexFamily, IndexLifecycleUnavailableReason};
use helix_db::migrations::acceptance::{
    adopted_index_name, adoption_boundaries, adoption_holds, adoption_recovery_holds,
    is_bootstrap_rejection, progress_at_boundary, reader_opens, rebuild_holds,
    refusal_preserves_sources, vector_recovery_holds, zero_cosine_failure_holds, CatalogReadback,
    InterruptedAdoption, RecoveredVectors, VectorRecoveryExpectation,
};
use helix_db::migrations::allocators::{
    greater_id, reserve_allocators_above_existing, AllocatorReservation,
};
use helix_db::migrations::batch::{MigrationSourceBatch, MigrationTuning, SourceRow};
use helix_db::migrations::candidates::{decode_roaring_treemap, edge_candidates};
use helix_db::migrations::catalog::{
    legacy_row_action, legacy_row_retirement, legacy_vector_adoption_source,
    migration_parity_legacy_catalog_row, tombstone_json, LegacyDefinitionRow, LegacyRowAction,
    LegacyRowRetirement,
};
use helix_db::migrations::checkpoint::{
    check_legacy_text_migration_interruption, clear_legacy_text_migration_checkpoint,
    inject_legacy_text_migration_checkpoint_once, legacy_text_migration_checkpoint_was_triggered,
    observe_legacy_text_migration_operation, trip_legacy_text_migration_checkpoint,
    IndexOperationProgress, LegacyTextMigrationCheckpoint, LegacyTextMigrationCheckpointState,
    TextBuildStage, TextManifestValidationProgress,
};
use helix_db::migrations::controller::MigrationBatch;
use helix_db::migrations::convergence::{
    after_idle_scan, asks_for_adoption, legacy_physical_rows, next_convergence_step,
    next_tombstone_step, plan_enqueue, plan_row_retirement, receipt_operation_id,
    retries_before_waiting, wait_step, ConvergenceStep, EligibleSource, EnqueuePlan,
    IndexDdlReceipt, LegacyRangeDirection, LegacyRowGroup, OperationStatus, OperationSubject,
    RetirementPlan, TombstoneStep, WaitStep,
};
use helix_db::migrations::definition_migration::{
    DefinitionAction, DefinitionEvent, DefinitionMigration,
};
use helix_db::migrations::definitions::{
    IndexElementKind, IndexIdentityFamily, LegacyDynamicIndexCatalogEntry,
    LegacyDynamicIndexDefinition, LegacyDynamicIndexKey, LegacySecondaryIndexDefinition,
    LegacyTextIndexDefinition, LegacyVectorIndexDefinition, RangeIndexDirection,
    SecondaryIndexDefinition, SecondaryIndexKind, TextAnalyzerKind, TextIndexDefinition, ValidatedDynamicIndexDefinition,
    VectorDistanceMetric, VectorIndexDefinition,
};
use helix_db::migrations::differences::DefinitionField;
use helix_db::migrations::digest::{
    frame_rows, non_metadata_vector_digest, VectorRow, VectorRowKind,
};
use helix_db::migrations::edges::{
    add_adjacency, decode_edge_endpoints, decode_endpoint_rows, label_of,
    maintain_current_edge_rows, open_batch, EdgeAdjacencyDirection, EdgeRow, EndpointSource,
    EquivalenceScan, LabelledProperty, LegacyEdgePairMigrationRow,
};
use helix_db::migrations::failpoints::MigrationFailpoint;
use helix_db::migrations::job::{
    MigrationId, MigrationJob, MigrationMode, MigrationResumeKey, MigrationStage,
};
use helix_db::migrations::markers::{
    confirm_schema_completion, index_storage_v4_cleanup_ready, legacy_catalog_metadata_names,
    marker_is_published, plan_schema_completion, ready_value, storage_schema_progress,
    tenant_key_envelope_ready, CompletionStep, ReadinessMarker, StorageSchemaProgress,
};
use helix_db::migrations::preflight::{
    PhysicalNaming, ReservationPreflight, ReservationRow, SourceCandidate, VectorMetadataRow,
};
use helix_db::migrations::records::{
    IndexOperationId, IndexRecord, IndexState, LegacyVectorPhysicalReservation, PhysicalLayout,
};
use helix_db::migrations::recovery::VectorRecoveryStage;
use helix_db::migrations::startup::{
    gate_definition_migration, job_to_create, migration_completed, migration_processed_rows,
    plan_catalog_publication, BlockingMigration, DefinitionGate, DefinitionWalk, StartupAction,
    StartupEvent, StartupMigration, WalkAction,
};
use helix_db::mode::HelixDbMode;

fn legacy_secondary(
    kind: SecondaryIndexKind,
    unique: bool,
    direction: RangeIndexDirection,
) -> LegacySecondaryIndexDefinition {
    LegacySecondaryIndexDefinition {
        element_type: IndexElementKind::Node,
        kind,
        label: "User".to_string(),
        property: "email".to_string(),
        unique,
        direction,
    }
}

fn secondary(unique: bool) -> ValidatedDynamicIndexDefinition {
    ValidatedDynamicIndexDefinition::Secondary(SecondaryIndexDefinition {
        element_type: IndexElementKind::Node,
        kind: SecondaryIndexKind::Equality,
        label: "User".to_string(),
        property: "email".to_string(),
        unique,
        direction: RangeIndexDirection::Asc,
    })
}

fn text() -> ValidatedDynamicIndexDefinition {
    ValidatedDynamicIndexDefinition::Text(TextIndexDefinition {
        element_type: IndexElementKind::Node,
        label: "Document".to_string(),
        property: "body".to_string(),
        tenant_property: None,
        analyzer: TextAnalyzerKind(0),
        positions_enabled: false,
    })
}

fn vector(tenant_property: Option<&str>) -> VectorIndexDefinition {
    VectorIndexDefinition {
        element_type: IndexElementKind::Node,
        label: "Document".to_string(),
        property: "embedding".to_string(),
        tenant_property: tenant_property.map(str::to_string),
        dimension: 3,
        metric: VectorDistanceMetric::Cosine,
        m: 8,
        m0: 16,
        ef_construction: 64,
        ml_bits: 0.5_f32.to_bits(),
        simhash_threshold: 9,
        sampling_ratio_bits: 0.5_f32.to_bits(),
        adaptive_enabled: false,
        adaptive_failure_prob_bits: 0.2_f32.to_bits(),
    }
}

fn legacy_vector() -> LegacyVectorIndexDefinition {
    LegacyVectorIndexDefinition {
        element_type: IndexElementKind::Node,
        label: "Document".to_string(),
        property: "embedding".to_string(),
        tenant_property: None,
        dimension: 3,
        metric: VectorDistanceMetric::Cosine,
        m: 8,
        m0: 16,
        ef_construction: 64,
        ml_bits: 0.5_f32.to_bits(),
        simhash_threshold: 9,
        sampling_ratio_bits: 0.5_f32.to_bits(),
        adaptive_enabled: false,
        adaptive_failure_prob_bits: 0.2_f32.to_bits(),
    }
}

fn vector_row(storage_key: &[u8]) -> LegacyDefinitionRow {
    LegacyDefinitionRow {
        storage_key: storage_key.to_vec(),
        identity: LegacyDynamicIndexKey::Vector {
            element_type: IndexElementKind::Node,
            label: "Document".to_string(),
            property: "embedding".to_string(),
        },
        entry: LegacyDynamicIndexCatalogEntry::Definition(LegacyDynamicIndexDefinition::Vector(
            legacy_vector(),
        )),
        identity_refusal: None,
        definition_refusal: None,
    }
}

fn secondary_row() -> LegacyDefinitionRow {
    let legacy = || legacy_secondary(SecondaryIndexKind::Equality, false, RangeIndexDirection::Asc);
    LegacyDefinitionRow {
        storage_key: b"secondary".to_vec(),
        identity: LegacyDynamicIndexKey::Secondary(legacy()),
        entry: LegacyDynamicIndexCatalogEntry::Definition(
            LegacyDynamicIndexDefinition::Secondary(legacy()),
        ),
        identity_refusal: None,
        definition_refusal: None,
    }
}

fn record(
    definition: ValidatedDynamicIndexDefinition,
    state: IndexState,
    physical: PhysicalLayout,
) -> IndexRecord {
    IndexRecord { index_id: 5, generation: 2, definition, state, physical }
}

fn adopted_record(physical_index_id: u64) -> IndexRecord {
    record(
        ValidatedDynamicIndexDefinition::Vector(vector(None)),
        IndexState::Active,
        PhysicalLayout::VectorUnpartitioned { physical_index_id },
    )
}

const ADOPTED: LegacyVectorPhysicalReservation =
    LegacyVectorPhysicalReservation::AdoptedActive { index_id: 5, generation: 2 };

fn reserved(
    physical_id: u64,
    reservation: LegacyVectorPhysicalReservation,
) -> ReservationRow {
    ReservationRow { physical_id: Some(physical_id), reservation: Some(reservation) }
}

fn required<T: std::fmt::Debug>(result: Result<T, HelixDbError>) -> String {
    match result {
        Err(HelixDbError::MigrationRequired { reason }) => reason,
        other => panic!("expected a required migration, got {other:?}"),
    }
}

fn corruption<T: std::fmt::Debug>(result: Result<T, HelixDbError>) -> String {
    match result {
        Err(HelixDbError::IndexCatalogCorruption(text)) => text,
        other => panic!("expected a corrupt catalog, got {other:?}"),
    }
}

#[test]
fn index_storage_v4_cleanup_readiness_is_byte_frozen_and_strict() {
    let key = ReadinessMarker::IndexStorageV4Cleanup.key(&[]);
    assert_eq!(key, b"\xFFkv_migration_ready:index_storage_v4_cleanup".to_vec());
    assert_eq!(index_storage_v4_cleanup_ready(None), Ok(false));
    let value = ready_value();
    assert_eq!(value, b"1".to_vec());
    assert_eq!(index_storage_v4_cleanup_ready(Some(&value)), Ok(true));
    assert_eq!(
        required(index_storage_v4_cleanup_ready(Some(b"invalid"))),
        "index storage V4 cleanup readiness marker is malformed"
    );
}

#[test]
fn tenant_key_envelope_readiness_is_byte_frozen_and_strict() {
    let key = ReadinessMarker::TenantKeyEnvelope.key(&[]);
    assert_eq!(key, b"\xFFkv_migration_ready:tenant_key_envelope_v1".to_vec());
    assert_eq!(tenant_key_envelope_ready(None), Ok(false));
    assert_eq!(tenant_key_envelope_ready(Some(b"1")), Ok(true));
    assert_eq!(
        required(tenant_key_envelope_ready(Some(b"invalid"))),
        "tenant key envelope readiness marker is malformed"
    );
}

#[test]
fn storage_schema_progress_accepts_only_ordered_prefixes() {
    let marker = |ready: bool| if ready { Some(b"1".as_slice()) } else { None };
    for ((graph, index, schema), expected) in [
        ((false, false, false), StorageSchemaProgress::NotStarted),
        ((true, false, false), StorageSchemaProgress::GraphReady),
        ((true, true, false), StorageSchemaProgress::IndexReady),
        ((true, true, true), StorageSchemaProgress::Complete),
    ] {
        assert_eq!(
            storage_schema_progress(marker(graph), marker(index), marker(schema)),
            Ok(expected)
        );
    }
}

#[test]
fn storage_schema_progress_rejects_malformed_and_unordered_markers() {
    let cases: [(Option<&[u8]>, Option<&[u8]>, Option<&[u8]>); 8] = [
        (None, Some(b"1"), None),
        (None, None, Some(b"1")),
        (None, Some(b"1"), Some(b"1")),
        (Some(b"1"), None, Some(b"1")),
        (Some(b"invalid"), None, None),
        (Some(b"1"), Some(b"invalid"), None),
        (Some(b"1"), Some(b"1"), Some(b"invalid")),
        (Some(b"0"), None, None),
    ];
    for (graph, index, schema) in cases {
        assert!(matches!(
            storage_schema_progress(graph, index, schema),
            Err(HelixDbError::MigrationRequired { .. })
        ));
    }
    assert_eq!(
        required(storage_schema_progress(None, Some(b"1"), None)),
        "storage migration readiness is not an ordered prefix (graph=false, index=true, \
         schema=false)"
    );
    assert_eq!(
        required(storage_schema_progress(Some(b"0"), None, None)),
        "storage migration readiness marker graph_format_v1 is malformed"
    );
}

#[test]
fn schema_completion_needs_every_prerequisite() {
    assert_eq!(plan_schema_completion(true, true, true, false), Ok(CompletionStep::Publish));
    assert_eq!(plan_schema_completion(true, true, true, true), Ok(CompletionStep::Skip));
    assert!(plan_schema_completion(true, false, true, false).is_err());
    assert_eq!(
        required(plan_schema_completion(true, true, false, false)),
        "storage schema completion requires an empty legacy index catalog"
    );
    assert_eq!(confirm_schema_completion(true, true, true), Ok(()));
    assert_eq!(
        required(confirm_schema_completion(true, true, false)),
        "storage schema prerequisites changed before completion publication"
    );
    assert!(marker_is_published(Some(b"1")) && !marker_is_published(None));
    assert_eq!(legacy_catalog_metadata_names().len(), 3);
}

#[test]
fn startup_reserves_node_and_edge_allocators_above_migrated_ids() {
    let max_node = [3, 41, 7].iter().fold(None, |max, id| greater_id(max, *id));
    let max_edge = greater_id(None, 73);
    assert_eq!(
        reserve_allocators_above_existing(max_node, max_edge),
        Ok(AllocatorReservation { next_node_id: Some(42), next_edge_id: Some(74) })
    );
    assert_eq!(
        reserve_allocators_above_existing(None, None),
        Ok(AllocatorReservation { next_node_id: None, next_edge_id: None })
    );
}

#[test]
fn startup_fails_closed_at_maximum_node_id() {
    assert!(matches!(
        reserve_allocators_above_existing(Some(u64::MAX), None),
        Err(HelixDbError::InvariantViolation(text))
            if text.contains("cannot reserve node allocator above the maximum u64 node id")
    ));
}

#[test]
fn startup_fails_closed_at_maximum_edge_id() {
    assert!(matches!(
        reserve_allocators_above_existing(Some(1), Some(u64::MAX)),
        Err(HelixDbError::InvariantViolation(text))
            if text.contains("cannot reserve edge allocator above the maximum u64 edge id")
    ));
}

#[test]
fn batched_legacy_equivalence_checks_align_endpoints_and_properties() {
    let endpoints = |from: u64, to: u64| [from.to_be_bytes(), to.to_be_bytes()].concat();
    let pair = |from, to, candidates: &[u64]| LegacyEdgePairMigrationRow {
        from,
        to,
        candidates: candidates.to_vec(),
        equivalent: false,
    };
    let tuning = MigrationTuning::new(10, 1024).expect("positive limits");
    let mut scan = EquivalenceScan::new(vec![pair(1, 2, &[10, 11]), pair(3, 4, &[12])], tuning);
    let probe = scan.next_probe();
    assert_eq!(probe, vec![(0, 10), (0, 11), (1, 12)]);
    assert_eq!(scan.weigh_endpoints(0, Some(&endpoints(1, 99))), Ok(false));
    assert_eq!(scan.weigh_endpoints(0, Some(&endpoints(1, 2))), Ok(true));
    scan.record(0, true);
    scan.record(0, false);
    assert_eq!(scan.unmatched(), vec![1]);
    assert_eq!(scan.weigh_endpoints(1, Some(&endpoints(3, 4))), Ok(true));
    scan.record(1, true);
    assert!(scan.unmatched().is_empty());
    assert_eq!(scan.weigh_endpoints(0, Some(&endpoints(1, 2))), Ok(false));
    assert!(scan.next_probe().is_empty());
}

#[test]
fn equivalence_probes_are_bounded_and_skip_matched_pairs() {
    let pair = |candidates: &[u64]| LegacyEdgePairMigrationRow {
        from: 1,
        to: 2,
        candidates: candidates.to_vec(),
        equivalent: false,
    };
    let tuning = MigrationTuning::new(2, 1024).expect("positive limits");
    let mut scan = EquivalenceScan::new(vec![pair(&[1, 2, 3]), pair(&[4])], tuning);
    assert_eq!(scan.next_probe(), vec![(0, 1), (0, 2)]);
    assert_eq!(scan.weigh_endpoints(0, None), Ok(false));
    assert_eq!(
        scan.weigh_endpoints(0, Some(&[1, 2])),
        Err(HelixDbError::Encoding(EncodingError::BufferTooShort { expected: 16, actual: 2 }))
    );
    scan.record(0, true);
    assert_eq!(scan.next_probe(), vec![(1, 4)]);
    assert_eq!(scan.unmatched(), vec![1]);
}

#[test]
fn searches_find_exactly_the_pairs_with_an_equivalent() {
    let pair = |candidates: &[u64]| LegacyEdgePairMigrationRow {
        from: 1,
        to: 2,
        candidates: candidates.to_vec(),
        equivalent: false,
    };
    for limit in 1..6 {
        let tuning = MigrationTuning::new(limit, 1024).expect("positive limits");
        let rows = vec![pair(&[1, 2, 3]), pair(&[]), pair(&[4, 5]), pair(&[6, 7, 8, 9])];
        let mut scan = EquivalenceScan::new(rows, tuning);
        loop {
            let probe = scan.next_probe();
            if probe.is_empty() {
                break;
            }
            for (row, candidate) in probe {
                scan.record(row, candidate == 2 || candidate == 6);
            }
        }
        assert_eq!(scan.unmatched(), vec![1, 2]);
    }
}

#[test]
fn edge_rows_are_written_in_order() {
    let properties = vec![
        LabelledProperty { name: "kind".to_string(), text: Some("x".to_string()) },
        LabelledProperty { name: "$label".to_string(), text: Some("KNOWS".to_string()) },
    ];
    assert_eq!(label_of(&properties), Some("KNOWS"));
    let rows = maintain_current_edge_rows(9, 1, 2, Some(&properties));
    assert_eq!(rows.len(), 7);
    assert!(matches!(rows[0], EdgeRow::Endpoints { edge_id: 9, from: 1, to: 2 }));
    assert!(matches!(rows[2], EdgeRow::PairIndex { from: 1, to: 2, edge_id: 9 }));
    assert!(matches!(&rows[3], EdgeRow::Adjacency { node: 1, operand }
        if *operand == vec![0, 0, 0, 0, 0, 0, 0, 0, 2]));
    assert!(matches!(&rows[6], EdgeRow::GlobalLabelIndex { label, edge_id: 9 }
        if label == "KNOWS"));
    assert_eq!(maintain_current_edge_rows(9, 1, 2, None).len(), 3);
    assert_eq!(
        add_adjacency(0x0102_0304_0506_0708, EdgeAdjacencyDirection::In),
        vec![2, 1, 2, 3, 4, 5, 6, 7, 8]
    );
}

#[test]
fn endpoint_rows_decode_or_fail_the_batch() {
    let value = [7_u64.to_be_bytes(), 8_u64.to_be_bytes()].concat();
    assert_eq!(decode_edge_endpoints(&value), Ok((7, 8)));
    assert_eq!(
        decode_edge_endpoints(&value[..15]),
        Err(HelixDbError::Encoding(EncodingError::BufferTooShort { expected: 16, actual: 15 }))
    );
    let row = |edge_id, value: &[u8]| EndpointSource { edge_id, value: value.to_vec() };
    assert_eq!(decode_endpoint_rows(&vec![row(Some(3), &value)]), Ok(vec![(3, 7, 8)]));
    assert!(matches!(
        decode_endpoint_rows(&vec![row(Some(3), &value), row(None, &value)]),
        Err(HelixDbError::InvariantViolation(_))
    ));
    let (rows, batch) = open_batch(MigrationSourceBatch::Advanced {
        rows: vec![SourceRow { key: vec![1], value: vec![2] }],
        resume_after_key: MigrationResumeKey::new(vec![1]).expect("key"),
        source_bytes: 2,
    });
    assert_eq!(rows.len(), 1);
    assert!(matches!(batch, MigrationBatch::Advanced { rows: 1, source_bytes: 2, .. }));
    assert_eq!(open_batch(MigrationSourceBatch::StageComplete).1, MigrationBatch::StageComplete);
}

#[test]
fn pair_candidates_come_from_the_stored_set() {
    let mut set = roaring::RoaringTreemap::new();
    for id in [70_000_000_000_u64, 3, 9] {
        set.insert(id);
    }
    let mut bytes = vec![];
    set.serialize_into(&mut bytes).expect("set serializes");
    assert_eq!(edge_candidates(Some(&bytes)), Ok(vec![3, 9, 70_000_000_000]));
    assert_eq!(edge_candidates(None), Ok(vec![]));
    assert!(matches!(edge_candidates(Some(b"bad")), Err(HelixDbError::Storage(_))));
    assert_eq!(decode_roaring_treemap(&bytes).expect("set decodes"), set);
}

#[test]
fn legacy_definitions_convert_or_name_their_fault() {
    let unique = legacy_secondary(SecondaryIndexKind::Equality, true, RangeIndexDirection::Asc)
        .into_runtime(None)
        .expect("node equality can be unique");
    assert!(unique.unique);
    let range = legacy_secondary(SecondaryIndexKind::Range, true, RangeIndexDirection::Asc)
        .into_runtime(None);
    assert!(matches!(range, Err(HelixDbError::Config(text))
        if text == "invalid legacy unique secondary definition: Node Range"));
    let descending =
        legacy_secondary(SecondaryIndexKind::Equality, false, RangeIndexDirection::Desc)
            .into_runtime(None);
    assert!(matches!(descending, Err(HelixDbError::Config(text))
        if text == "legacy equality definition has descending direction"));
    assert_eq!(legacy_vector().into_runtime(None), Ok(vector(None)));
    assert_eq!(
        legacy_vector().into_runtime(Some("m must be positive".to_string())),
        Err(HelixDbError::Config("m must be positive".to_string()))
    );
    let refused = legacy_secondary(SecondaryIndexKind::Equality, false, RangeIndexDirection::Asc)
        .into_runtime(Some("empty label".to_string()));
    assert_eq!(refused, Err(HelixDbError::Config("empty label".to_string())));
    let legacy_text = || LegacyTextIndexDefinition {
        element_type: IndexElementKind::Node,
        label: "Document".to_string(),
        property: "body".to_string(),
        tenant_property: None,
        analyzer: TextAnalyzerKind(0),
        positions_enabled: false,
    };
    assert_eq!(
        LegacyDynamicIndexDefinition::Text(legacy_text()).into_validated(None),
        Ok(text())
    );
    assert!(legacy_text().into_runtime(Some("empty property".to_string())).is_err());
}

#[test]
fn identities_leave_settings_out() {
    let plain = secondary(false).identity();
    let unique = secondary(true).identity();
    assert_eq!(plain, unique);
    assert_eq!(plain.family, IndexIdentityFamily::SecondaryEquality);
    let row = vector_row(b"v");
    let identity = row.identity.identity(None).expect("vector keys have identities");
    assert_eq!(identity, ValidatedDynamicIndexDefinition::Vector(vector(None)).identity());
    assert_eq!(
        row.identity.identity(Some("label is empty".to_string())),
        Err(HelixDbError::Config("label is empty".to_string()))
    );
    let (key, entry) = migration_parity_legacy_catalog_row(
        &ValidatedDynamicIndexDefinition::Vector(vector(None)),
        false,
    )
    .expect("vector rows encode");
    assert_eq!(key, row.identity);
    assert_eq!(entry, row.entry);
    let (_, tombstone) =
        migration_parity_legacy_catalog_row(&secondary(false), true).expect("tombstones encode");
    assert_eq!(tombstone, LegacyDynamicIndexCatalogEntry::Tombstone { tombstone: true });
    assert_eq!(tombstone_json(true), Ok(b"{\"tombstone\":true}".to_vec()));
    assert_eq!(tombstone_json(false), Ok(b"{\"tombstone\":false}".to_vec()));
}

#[test]
fn legacy_rows_converge_or_drop() {
    assert!(matches!(
        legacy_row_action(&secondary_row()),
        Ok(LegacyRowAction::Converge(definition)) if definition == secondary(false)
    ));
    let mut mismatched = secondary_row();
    mismatched.identity = LegacyDynamicIndexKey::Secondary(legacy_secondary(
        SecondaryIndexKind::Range,
        false,
        RangeIndexDirection::Asc,
    ));
    assert_eq!(
        corruption(legacy_row_action(&mismatched)),
        "legacy dynamic definition key/value identity mismatch"
    );
    let mut tombstone = secondary_row();
    tombstone.entry = LegacyDynamicIndexCatalogEntry::Tombstone { tombstone: true };
    assert!(matches!(
        legacy_row_action(&tombstone),
        Ok(LegacyRowAction::DropIdentity(identity)) if identity == secondary(false).identity()
    ));
    tombstone.entry = LegacyDynamicIndexCatalogEntry::Tombstone { tombstone: false };
    assert_eq!(
        corruption(legacy_row_action(&tombstone)),
        "legacy dynamic catalog tombstone marker is false"
    );
    assert!(matches!(
        legacy_row_retirement(&vector_row(b"v")),
        Ok(LegacyRowRetirement::ByVectorCleanup)
    ));
    assert!(matches!(
        legacy_row_retirement(&secondary_row()),
        Ok(LegacyRowRetirement::AfterActivation(_))
    ));
}

#[test]
fn adoption_has_one_exact_source() {
    let source = legacy_vector_adoption_source(
        &vec![secondary_row(), vector_row(b"key")],
        &vector(None),
        "node:Document:embedding",
    )
    .expect("one source");
    assert_eq!(source.storage_key(), b"key");
    assert_eq!(source.physical_name(), "node:Document:embedding");
    assert_eq!(
        corruption(legacy_vector_adoption_source(
            &vec![vector_row(b"a"), vector_row(b"b")],
            &vector(None),
            "name"
        )),
        "multiple legacy rows claim one vector adoption identity"
    );
    assert_eq!(
        required(legacy_vector_adoption_source(&vec![secondary_row()], &vector(None), "name")),
        "legacy vector adoption source disappeared before activation"
    );
    assert_eq!(
        required(legacy_vector_adoption_source(
            &vec![vector_row(b"a")],
            &vector(Some("tenant")),
            "name"
        )),
        "legacy vector adoption definition changed before activation"
    );
    let mut tombstone = vector_row(b"a");
    tombstone.entry = LegacyDynamicIndexCatalogEntry::Tombstone { tombstone: true };
    let refused = |text: &str| {
        let mut row = vector_row(b"v");
        row.definition_refusal = Some(text.to_string());
        row
    };
    let is_refusal = |error: HelixDbError| error == HelixDbError::Config("bad m".to_string());
    assert!(legacy_row_action(&refused("bad m")).is_err_and(is_refusal));
    assert!(legacy_row_retirement(&refused("bad m")).is_err_and(is_refusal));
    assert!(legacy_vector_adoption_source(&vec![refused("bad m")], &vector(None), "name")
        .is_err_and(is_refusal));
    let mut unnamed = secondary_row();
    unnamed.identity_refusal = Some("empty label".to_string());
    assert!(legacy_row_action(&unnamed)
        .is_err_and(|error| error == HelixDbError::Config("empty label".to_string())));
    assert_eq!(
        required(legacy_vector_adoption_source(&vec![tombstone], &vector(None), "name")),
        "legacy vector adoption source became a tombstone"
    );
}

#[test]
fn preflight_reserves_every_unreserved_source() {
    let mut preflight = ReservationPreflight::new();
    let name = "node:Document:embedding".to_string();
    preflight
        .note_metadata(VectorMetadataRow::Legacy {
            name: name.clone(),
            index_id: 42,
            name_hash: 42,
        })
        .expect("metadata is noted");
    let claimed = preflight
        .candidates(&vector_row(b"key"), &PhysicalNaming::Single { name, name_hash: 42 })
        .expect("candidates");
    assert_eq!(claimed.len(), 1);
    for candidate in claimed {
        preflight.add_source(candidate, vector(None), Ok(())).expect("source is added");
    }
    assert_eq!(preflight.new_reservations(), Ok(vec![42]));
    preflight
        .note_reservation(reserved(42, LegacyVectorPhysicalReservation::LegacySource))
        .expect("reservation is noted");
    assert_eq!(preflight.new_reservations(), Ok(vec![]));
    assert_eq!(
        corruption(
            preflight.note_reservation(reserved(42, LegacyVectorPhysicalReservation::LegacySource))
        ),
        "duplicate legacy vector reservation key"
    );
}

#[test]
fn preflight_refuses_conflicting_ownership() {
    let candidate =
        |name_hash| SourceCandidate { name: format!("namespace-{name_hash}"), name_hash };
    let mut unowned = ReservationPreflight::new();
    unowned.note_reservation(reserved(7, ADOPTED)).expect("noted");
    assert_eq!(
        required(unowned.new_reservations()),
        "legacy vector reservation 7 has inconsistent physical ownership"
    );
    let mut owned = ReservationPreflight::new();
    owned.note_record(adopted_record(8)).expect("noted");
    owned.add_source(candidate(8), vector(None), Ok(())).expect("added");
    assert_eq!(
        required(owned.new_reservations()),
        "legacy vector namespace 8 collides with existing V2 ownership"
    );
    let mut partitioned = ReservationPreflight::new();
    partitioned.note_partition(9);
    partitioned.add_source(candidate(9), vector(None), Ok(())).expect("added");
    assert!(partitioned.new_reservations().is_err());
    let mut repeated = ReservationPreflight::new();
    repeated.add_source(candidate(3), vector(None), Ok(())).expect("added");
    assert_eq!(
        corruption(repeated.add_source(candidate(3), vector(None), Ok(()))),
        "multiple legacy vector definitions hash to physical ID 3"
    );
    let mut elsewhere = ReservationPreflight::new();
    elsewhere
        .note_metadata(VectorMetadataRow::Legacy {
            name: "namespace-3".to_string(),
            index_id: 4,
            name_hash: 3,
        })
        .expect("noted");
    assert_eq!(
        corruption(elsewhere.add_source(candidate(3), vector(None), Ok(()))),
        "legacy vector physical name hashes to another metadata namespace"
    );
    let mut invalid = ReservationPreflight::new();
    assert_eq!(
        corruption(invalid.add_source(
            candidate(3),
            vector(None),
            Err(HelixDbError::IndexCatalogCorruption("other dimension".to_string())),
        )),
        "other dimension"
    );
    assert_eq!(invalid.new_reservations(), Ok(vec![]));
    let mut nameless = ReservationPreflight::new();
    nameless.add_source(candidate(0), vector(None), Ok(())).expect("zero names no namespace");
    assert_eq!(nameless.new_reservations(), Ok(vec![]));
    let mut twice = ReservationPreflight::new();
    twice.note_record(adopted_record(8)).expect("noted");
    assert_eq!(
        corruption(twice.note_record(adopted_record(9))),
        "multiple active vector records share one owner generation"
    );
}

#[test]
fn preflight_skips_namespaces_that_are_being_retired() {
    let mut preflight = ReservationPreflight::new();
    preflight
        .note_retiring(reserved(
            42,
            LegacyVectorPhysicalReservation::RetiringSource { index_id: 5, generation: 2 },
        ))
        .expect("noted");
    let naming =
        PhysicalNaming::Single { name: "node:Document:embedding".to_string(), name_hash: 42 };
    assert!(preflight.candidates(&vector_row(b"k"), &naming).expect("candidates").is_empty());
    assert!(preflight.candidates(&secondary_row(), &naming).expect("candidates").is_empty());
    let foreign = ReservationRow { physical_id: None, reservation: None };
    assert!(preflight.note_retiring(foreign).is_err());
    assert!(preflight.note_metadata(VectorMetadataRow::OutsideScope).is_err());
    assert!(preflight
        .note_metadata(VectorMetadataRow::Undecodable { legacy_error: "short".to_string() })
        .is_err());
    assert_eq!(preflight.note_metadata(VectorMetadataRow::Current), Ok(()));
}

#[test]
fn tenant_namespaces_are_found_by_their_prefix() {
    let mut preflight = ReservationPreflight::new();
    for (name, id) in [("docs/tb", 1), ("other", 3), ("docs/ta", 2), ("docs/\u{e9}", 4)] {
        preflight
            .note_metadata(VectorMetadataRow::Legacy {
                name: name.to_string(),
                index_id: id,
                name_hash: id,
            })
            .expect("noted");
    }
    let names: Vec<String> = preflight
        .candidates(
            &vector_row(b"k"),
            &PhysicalNaming::PerTenant { name_prefix: "docs/".to_string() },
        )
        .expect("candidates")
        .into_iter()
        .map(|candidate| candidate.name)
        .collect();
    assert_eq!(
        names,
        vec!["docs/ta".to_string(), "docs/tb".to_string(), "docs/\u{e9}".to_string()]
    );
    let mut refused = vector_row(b"k");
    refused.definition_refusal = Some("bad m".to_string());
    let naming = PhysicalNaming::PerTenant { name_prefix: "docs/".to_string() };
    assert!(matches!(
        preflight.candidates(&refused, &naming),
        Err(HelixDbError::Config(text)) if text == "bad m"
    ));
}

#[test]
fn definitions_converge_by_the_state_of_their_record() {
    let operation_id = IndexOperationId(9);
    let definition = secondary(false);
    let at = |state| record(secondary(false), state, PhysicalLayout::Secondary);
    assert_eq!(next_convergence_step(&definition, None), Ok(ConvergenceStep::Enqueue));
    assert_eq!(
        next_convergence_step(&definition, Some(&at(IndexState::Active))),
        Ok(ConvergenceStep::Converged)
    );
    assert_eq!(
        next_convergence_step(
            &definition,
            Some(&at(IndexState::Building { build_operation_id: operation_id }))
        ),
        Ok(ConvergenceStep::AwaitBuild { operation_id })
    );
    assert_eq!(
        next_convergence_step(
            &definition,
            Some(&at(IndexState::Dropping { drop_operation_id: operation_id }))
        ),
        Ok(ConvergenceStep::Await { operation_id })
    );
    assert!(matches!(
        next_convergence_step(&secondary(true), Some(&at(IndexState::Active))),
        Err(HelixDbError::IndexDefinitionConflict { existing, requested, differing_fields })
            if *existing == secondary(false)
                && *requested == secondary(true)
                && differing_fields == vec![DefinitionField::Unique]
    ));
    assert_eq!(text().differences(&secondary(true)), vec![DefinitionField::Family]);
    let mut other = vector(Some("tenant"));
    other.m = 9;
    assert_eq!(
        ValidatedDynamicIndexDefinition::Vector(vector(None))
            .differences(&ValidatedDynamicIndexDefinition::Vector(other)),
        vec![DefinitionField::TenantProperty, DefinitionField::M]
    );
    assert_eq!(text().differences(&text()), vec![]);
    assert_eq!(next_tombstone_step(None), TombstoneStep::Gone);
    assert_eq!(
        next_tombstone_step(Some(&at(IndexState::Active))),
        TombstoneStep::Drop { is_secondary: true }
    );
    assert_eq!(
        receipt_operation_id(IndexDdlReceipt::ExistingOperation { operation_id }),
        Some(operation_id)
    );
    assert_eq!(receipt_operation_id(IndexDdlReceipt::AlreadyActive { index_id: 1 }), None);
}

#[test]
fn eligible_vectors_are_adopted_and_others_rebuilt() {
    let plain = ValidatedDynamicIndexDefinition::Vector(vector(None));
    let tenant = ValidatedDynamicIndexDefinition::Vector(vector(Some("tenant")));
    assert!(asks_for_adoption(&plain));
    assert!(!asks_for_adoption(&tenant) && !asks_for_adoption(&secondary(false)));
    let source = |reservation| Some(EligibleSource { physical_id: 42, reservation });
    let legacy = Some(LegacyVectorPhysicalReservation::LegacySource);
    assert_eq!(
        plan_enqueue(&plain, None, source(legacy)),
        Ok(EnqueuePlan::Adopt { physical_id: 42 })
    );
    assert_eq!(plan_enqueue(&plain, None, None), Ok(EnqueuePlan::Rebuild));
    assert_eq!(plan_enqueue(&tenant, None, source(legacy)), Ok(EnqueuePlan::Rebuild));
    assert_eq!(
        required(plan_enqueue(&plain, None, source(Some(ADOPTED)))),
        "eligible legacy vector reservation is already owned"
    );
    assert_eq!(
        required(plan_enqueue(&plain, None, source(None))),
        "eligible legacy vector has no preflight reservation"
    );
    let reason = IndexLifecycleUnavailableReason::MutationMaintenanceUnavailable;
    assert_eq!(
        plan_enqueue(&plain, Some(reason), None),
        Err(HelixDbError::IndexLifecycleUnavailable { family: IndexFamily::Vector, reason })
    );
}

#[test]
fn waiting_ends_with_the_operation_or_its_failure() {
    let id = IndexOperationId(3);
    let subject = OperationSubject {
        operation: "op".to_string(),
        stage: "Scan".to_string(),
        family: "Text".to_string(),
        attempt: 2,
    };
    let blocked = || OperationStatus::Blocked {
        invalid_source_data: true,
        blocker: "bad row".to_string(),
    };
    assert_eq!(
        wait_step(id, Some((&subject, &OperationStatus::Succeeded)), false, false),
        Ok(WaitStep::Finished)
    );
    assert_eq!(
        wait_step(id, Some((&subject, &OperationStatus::Queued)), false, true),
        Ok(WaitStep::StepSecondary)
    );
    assert_eq!(
        wait_step(id, Some((&subject, &OperationStatus::Running)), false, false),
        Ok(WaitStep::WakeAndSleep)
    );
    assert_eq!(
        required(wait_step(id, Some((&subject, &blocked())), false, false)),
        "legacy definition operation op is blocked at Scan for Text: bad row"
    );
    assert_eq!(
        required(wait_step(id, Some((&subject, &OperationStatus::Queued)), true, false)),
        "legacy definition operation op encountered a transient lifecycle failure at Scan for \
         Text in the current writer epoch after attempt 2"
    );
    assert!(matches!(
        wait_step(id, None, false, false),
        Err(HelixDbError::IndexOperationNotFound { .. })
    ));
    assert_eq!(
        required(after_idle_scan(&subject, &OperationStatus::Queued)),
        "legacy definition operation op remains nonterminal after a complete Disabled-mode queue \
         scan at Scan for Text"
    );
    assert_eq!(after_idle_scan(&subject, &OperationStatus::Aborted), Ok(()));
    assert!(retries_before_waiting(&text(), &blocked()));
    assert!(!retries_before_waiting(&secondary(false), &blocked()));
}

#[test]
fn rows_retire_with_exact_ownership() {
    let expected = secondary(false);
    let live = record(secondary(false), IndexState::Active, PhysicalLayout::Secondary);
    assert_eq!(
        plan_row_retirement(Some(&expected), true, Some(&live), None),
        Ok(RetirementPlan::PhysicalRowsAndRow)
    );
    assert_eq!(plan_row_retirement(None, true, None, None), Ok(RetirementPlan::RowOnly));
    assert!(plan_row_retirement(None, true, Some(&live), None).is_err());
    let vector_definition = ValidatedDynamicIndexDefinition::Vector(vector(None));
    assert_eq!(
        plan_row_retirement(
            Some(&vector_definition),
            false,
            Some(&adopted_record(42)),
            Some(ADOPTED)
        ),
        Ok(RetirementPlan::Nothing)
    );
    assert_eq!(
        required(plan_row_retirement(
            Some(&vector_definition),
            false,
            Some(&adopted_record(42)),
            None
        )),
        "legacy definition disappeared without exact adopted vector ownership"
    );
    assert_eq!(
        required(plan_row_retirement(Some(&expected), false, Some(&live), None)),
        "legacy definition disappeared without adopted vector ownership"
    );
    assert_eq!(legacy_physical_rows(&expected), Ok(vec![LegacyRowGroup::NodeEquality]));
    let edge_range = ValidatedDynamicIndexDefinition::Secondary(SecondaryIndexDefinition {
        element_type: IndexElementKind::Edge,
        kind: SecondaryIndexKind::Range,
        label: "FOLLOWS".to_string(),
        property: "rank".to_string(),
        unique: false,
        direction: RangeIndexDirection::Desc,
    });
    assert_eq!(
        legacy_physical_rows(&edge_range),
        Ok(vec![
            LegacyRowGroup::EdgeRange(LegacyRangeDirection::Desc),
            LegacyRowGroup::GlobalEdgeRange(LegacyRangeDirection::Desc),
        ])
    );
    assert!(matches!(
        legacy_physical_rows(&vector_definition),
        Err(HelixDbError::InvariantViolation(_))
    ));
}

#[test]
fn text_checkpoints_interrupt_once_reached() {
    let mut state = LegacyTextMigrationCheckpointState::new();
    inject_legacy_text_migration_checkpoint_once(
        &mut state,
        LegacyTextMigrationCheckpoint::ValidateRoots,
    )
    .expect("checkpoint arms");
    assert!(inject_legacy_text_migration_checkpoint_once(
        &mut state,
        LegacyTextMigrationCheckpoint::CatchUp
    )
    .is_err());
    assert_eq!(
        trip_legacy_text_migration_checkpoint(
            &mut state,
            LegacyTextMigrationCheckpoint::BeforeEnqueue
        ),
        Ok(())
    );
    let validating = |part| {
        IndexOperationProgress::ConstructingText(TextBuildStage::ValidateManifests(part))
    };
    assert_eq!(
        observe_legacy_text_migration_operation(
            &mut state,
            validating(TextManifestValidationProgress::Pages)
        ),
        Ok(())
    );
    let reached = required(observe_legacy_text_migration_operation(
        &mut state,
        validating(TextManifestValidationProgress::Roots),
    ));
    assert!(reached.starts_with("injected legacy text migration interruption at "));
    assert!(legacy_text_migration_checkpoint_was_triggered(&state));
    assert!(check_legacy_text_migration_interruption(&state).is_err());
    clear_legacy_text_migration_checkpoint(&mut state);
    assert_eq!(check_legacy_text_migration_interruption(&state), Ok(()));
}

#[test]
fn startup_runs_each_job_to_its_end() {
    let mut state = StartupMigration::start();
    let mut completed_checks = 0;
    let mut actions = vec![];
    loop {
        let action = state.action();
        actions.push(action);
        let event = match action {
            StartupAction::Finish => break,
            StartupAction::CheckCompleted(_) => {
                completed_checks += 1;
                StartupEvent::Completed(completed_checks % 3 == 0)
            }
            StartupAction::RunTurn(_) => StartupEvent::Advanced(true),
            _ => StartupEvent::Done,
        };
        state = state.next(event).expect("startup advances");
    }
    let place = |wanted: StartupAction| actions.iter().position(|found| *found == wanted).unwrap();
    assert!(
        place(StartupAction::ReserveAllocators)
            < place(StartupAction::RunTurn(BlockingMigration::GraphRewrite))
    );
    assert!(
        place(StartupAction::PublishGraphReady)
            < place(StartupAction::RunTurn(BlockingMigration::VectorProperties))
    );
    assert!(actions.contains(&StartupAction::EnsureJob(
        MigrationId::GraphFormatV1Cleanup,
        MigrationMode::Background
    )));
    assert!(matches!(
        StartupMigration::TurnRewrite.next(StartupEvent::Advanced(false)),
        Err(HelixDbError::Config(text)) if text == "blocking graph-format migration did not advance"
    ));
    assert_eq!(BlockingMigration::VectorCleanup.id(), MigrationId::LegacyVectorPhysicalCleanup);
}

#[test]
fn jobs_are_created_once() {
    assert!(job_to_create(true, MigrationId::GraphFormatV1Cleanup, MigrationMode::Background)
        .is_none());
    let mut job =
        job_to_create(false, MigrationId::GraphFormatV1Cleanup, MigrationMode::Background)
            .expect("job is created");
    assert!(!migration_completed(Some(&job)) && !migration_completed(None));
    job.complete();
    assert!(migration_completed(Some(&job)));
    assert_eq!(migration_processed_rows(None), 0);
}

#[test]
fn definition_rows_converge_before_any_retires() {
    assert_eq!(
        gate_definition_migration(HelixDbMode::Writer, false, true, true),
        Ok(DefinitionGate::Proceed)
    );
    assert_eq!(
        gate_definition_migration(HelixDbMode::Writer, true, false, false),
        Ok(DefinitionGate::AlreadyMigrated)
    );
    assert!(gate_definition_migration(HelixDbMode::ReadOnly, true, true, true).is_err());
    assert!(gate_definition_migration(HelixDbMode::Writer, false, false, true).is_err());
    let mut walk = DefinitionWalk::new(vec![secondary_row(), vector_row(b"v")]);
    let mut order = vec![];
    loop {
        match walk.next().expect("rows are coherent") {
            WalkAction::Converge { position, .. } => order.push(("converge", position)),
            WalkAction::Retire { position, .. } => order.push(("retire", position)),
            WalkAction::Finished => break,
        }
    }
    assert_eq!(
        order,
        vec![("converge", 0), ("converge", 1), ("retire", 0), ("retire", 1)]
    );
    let publication = plan_catalog_publication(true, true, &[]).expect("publishes");
    assert_eq!(publication.marker_key, ReadinessMarker::IndexV2Catalog.key(&[]));
    assert_eq!(publication.deleted_keys[0], b"\xFFdynamic_index_catalog_blob".to_vec());
    assert!(plan_catalog_publication(false, true, &[]).is_err());
    assert!(plan_catalog_publication(true, false, &[]).is_err());
}

#[test]
fn definition_migration_publishes_behind_walk_and_cleanup() {
    let mut state = DefinitionMigration::start();
    let mut actions = vec![];
    let mut walked = [false, false, true].into_iter();
    let mut completed = [false, true].into_iter();
    loop {
        let action = state.action();
        actions.push(action);
        let event = match action {
            DefinitionAction::Finish => break,
            DefinitionAction::Gate => DefinitionEvent::Gated(DefinitionGate::Proceed),
            DefinitionAction::Walk => DefinitionEvent::Walked(walked.next().expect("walk ends")),
            DefinitionAction::CheckCompleted(_) => {
                DefinitionEvent::Completed(completed.next().expect("cleanup ends"))
            }
            DefinitionAction::RunTurn(_) => DefinitionEvent::Advanced(true),
            _ => DefinitionEvent::Done,
        };
        state = state.next(event).expect("every turn advances");
    }
    let cleanup = BlockingMigration::VectorCleanup;
    assert_eq!(
        actions,
        vec![
            DefinitionAction::Gate,
            DefinitionAction::Preflight,
            DefinitionAction::Walk,
            DefinitionAction::Walk,
            DefinitionAction::Walk,
            DefinitionAction::EnsureJob(
                MigrationId::LegacyVectorPhysicalCleanup,
                MigrationMode::BlockingStartup,
            ),
            DefinitionAction::LoadVectorRetirement,
            DefinitionAction::CheckCompleted(cleanup),
            DefinitionAction::RunTurn(cleanup),
            DefinitionAction::CheckCompleted(cleanup),
            DefinitionAction::Cross(MigrationFailpoint::MigrationReadyPublicationBefore),
            DefinitionAction::PublishCatalog,
            DefinitionAction::Cross(MigrationFailpoint::MigrationReadyPublicationAfter),
            DefinitionAction::RefreshCatalog,
            DefinitionAction::CompleteSchema,
            DefinitionAction::Finish,
        ]
    );
    assert_eq!(
        DefinitionMigration::TurnCleanup.next(DefinitionEvent::Advanced(false)),
        Err(HelixDbError::Config(
            "blocking legacy vector physical cleanup did not advance".to_string()
        ))
    );
    assert_eq!(
        DefinitionMigration::start()
            .next(DefinitionEvent::Gated(DefinitionGate::AlreadyMigrated)),
        Ok(DefinitionMigration::Refresh)
    );
    assert_eq!(WalkAction::Finished.event(), DefinitionEvent::Walked(true));
}

fn graph_row(key: &[u8], value: &[u8]) -> VectorRow {
    VectorRow { kind: VectorRowKind::Graph, key: key.to_vec(), value: value.to_vec() }
}

fn metadata_row() -> VectorRow {
    VectorRow { kind: VectorRowKind::IndexMetadata, key: b"meta".to_vec(), value: vec![1] }
}

#[test]
fn vector_digests_cover_graph_rows_alone() {
    let empty = non_metadata_vector_digest(&vec![]);
    assert_eq!(empty.len(), 32);
    assert_eq!(
        empty[..8],
        [0xe3, 0xb0, 0xc4, 0x42, 0x98, 0xfc, 0x1c, 0x14]
    );
    assert_eq!(non_metadata_vector_digest(&vec![metadata_row()]), empty);
    assert_ne!(non_metadata_vector_digest(&vec![graph_row(b"k", b"v")]), empty);
    assert_eq!(
        frame_rows(&vec![metadata_row(), graph_row(b"k", b"vv")]),
        vec![0, 0, 0, 0, 0, 0, 0, 1, b'k', 0, 0, 0, 0, 0, 0, 0, 2, b'v', b'v']
    );
    assert_ne!(
        frame_rows(&vec![graph_row(b"ab", b"c")]),
        frame_rows(&vec![graph_row(b"a", b"bc")])
    );
}

#[test]
fn adoptions_keep_every_graph_row() {
    let before = non_metadata_vector_digest(&vec![graph_row(b"k", b"v")]);
    let changed = non_metadata_vector_digest(&vec![graph_row(b"k", b"w")]);
    assert!(adoption_holds(&adopted_record(42), Some(ADOPTED), 42, &before, &before));
    assert!(!adoption_holds(&adopted_record(42), Some(ADOPTED), 42, &before, &changed));
    assert!(!adoption_holds(&adopted_record(42), Some(ADOPTED), 43, &before, &before));
    assert!(!adoption_holds(&adopted_record(42), None, 42, &before, &before));
    assert_eq!(adopted_index_name(5, 2, 42), "v2-vector-5-2-42");
    assert_eq!(adoption_boundaries().len(), 8);

    let catalog = CatalogReadback { legacy_rows: 1, index_ready: false, schema_complete: false };
    let interrupted = InterruptedAdoption {
        boundary_fired: true,
        error: HelixDbError::MigrationRequired { reason: "injected".to_string() },
        catalog,
        state: IndexState::Building { build_operation_id: IndexOperationId(1) },
        waits_for_retry: true,
    };
    assert!(interrupted.holds(&before, &before));
    assert!(!interrupted.holds(&before, &changed));
    let retired = CatalogReadback { legacy_rows: 0, index_ready: true, schema_complete: true };
    assert!(retired.is_retired() && !catalog.is_retired());
    assert!(adoption_recovery_holds((5, 2), &adopted_record(42), 42, retired, &before, &before));
    assert!(!adoption_recovery_holds((5, 3), &adopted_record(42), 42, retired, &before, &before));
}

#[test]
fn rebuilds_leave_the_legacy_namespace_behind() {
    assert!(rebuild_holds(&adopted_record(50), false, 42, 0, None));
    assert!(!rebuild_holds(&adopted_record(42), false, 42, 0, None));
    assert!(!rebuild_holds(&adopted_record(50), false, 42, 1, None));
    let partitioned = record(
        ValidatedDynamicIndexDefinition::Vector(vector(Some("tenant"))),
        IndexState::Active,
        PhysicalLayout::VectorPartitioned,
    );
    assert!(rebuild_holds(&partitioned, true, 42, 0, None));
    assert!(!rebuild_holds(&partitioned, false, 42, 0, None));
}

#[test]
fn refused_opens_preserve_their_sources() {
    let rows = || vec![metadata_row(), graph_row(b"k", b"v")];
    assert!(refusal_preserves_sources(false, b"row", Some(b"row"), &rows(), &rows()));
    assert!(!refusal_preserves_sources(true, b"row", Some(b"row"), &rows(), &rows()));
    assert!(!refusal_preserves_sources(false, b"row", None, &rows(), &rows()));
    assert!(!refusal_preserves_sources(false, b"row", Some(b"row"), &rows(), &vec![]));
    assert!(is_bootstrap_rejection(&HelixDbError::UnsupportedIndexStorageVersion { found: 5 }));
    assert!(!is_bootstrap_rejection(&HelixDbError::DatabaseClosed));
}

#[test]
fn zero_vectors_stop_at_the_cursor_before_them() {
    let failed = |rows| {
        let mut job = MigrationJob::new(
            MigrationId::LegacyVectorPropertyMaterialization,
            MigrationMode::BlockingStartup,
        );
        job.record_advanced(MigrationResumeKey::new(b"node-76".to_vec()).expect("key"), rows);
        job.fail("zero vector".to_string());
        job
    };
    let error = HelixDbError::LegacyZeroNormCosineVector {
        element_kind: IndexElementKind::Node,
        entity_id: 77,
    };
    assert!(zero_cosine_failure_holds(&error, 77, &failed(1), b"node-76"));
    assert!(!zero_cosine_failure_holds(&error, 78, &failed(1), b"node-76"));
    assert!(!zero_cosine_failure_holds(&error, 77, &failed(2), b"node-76"));
    assert!(!zero_cosine_failure_holds(&error, 77, &failed(1), b"node-75"));
}

#[test]
fn readers_wait_for_a_complete_schema() {
    assert!(reader_opens(false, &Ok(StorageSchemaProgress::NotStarted)));
    assert!(reader_opens(true, &Ok(StorageSchemaProgress::Complete)));
    assert!(!reader_opens(true, &Ok(StorageSchemaProgress::IndexReady)));
    assert!(!reader_opens(true, &storage_schema_progress(Some(b"bad"), None, None)));
    assert_eq!(
        progress_at_boundary(MigrationFailpoint::StorageSchemaCompletionBefore),
        Some(StorageSchemaProgress::IndexReady)
    );
    assert_eq!(progress_at_boundary(MigrationFailpoint::BatchReadBefore), None);
}

#[test]
fn recovered_stages_show_what_they_owe() {
    let retired = CatalogReadback { legacy_rows: 0, index_ready: true, schema_complete: true };
    let left = RecoveredVectors {
        migration_completed: true,
        catalog: retired,
        node_materialized: true,
        edge_materialized: false,
        current_rows_kept: true,
        retired_rows: 0,
    };
    assert!(vector_recovery_holds(VectorRecoveryStage::MaterializeNodes, left));
    assert!(!vector_recovery_holds(VectorRecoveryStage::MaterializeEdges, left));
    assert!(vector_recovery_holds(VectorRecoveryStage::RetireCoreRows, left));
    let remaining = RecoveredVectors { retired_rows: 1, ..left };
    assert!(!vector_recovery_holds(VectorRecoveryStage::RetireCoreRows, remaining));
    assert_eq!(
        VectorRecoveryStage::FenceLegacySources.expectation(),
        VectorRecoveryExpectation::Retired
    );
    let (element, label) = VectorRecoveryStage::MaterializeEdges.definition();
    assert_eq!((element, label), (IndexElementKind::Edge, "RELATED"));
    assert_eq!(
        VectorRecoveryStage::MaterializeNodes.migration_stage(),
        MigrationStage::NodeProperties
    );
}
