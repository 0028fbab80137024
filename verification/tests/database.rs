//! The database runtime: sources, caches, catalogs, open and close.
use helix_db::cache::{
    cache_stats, foyer_disk_block_size, slate_cache_state, CacheTierSnapshot, CacheTierState,
    CacheUsageSemantics, CacheUsageSnapshot, FtsUsage, SlateUsage, SlateWarmSummary,
    FOYER_MAX_DISK_BLOCK_SIZE_BYTES, FOYER_MIN_DISK_BLOCK_SIZE_BYTES,
};
use helix_db::close::{CloseState, CloseStep, CloseTurn};
use helix_db::config::{
    CacheAttachment, CacheMode, CacheWarmMode, DbConfig, FamilyScheduling, FtsMemoryCache,
    HelixDbSource, IndexDriverScheduling, IndexLifecycleScheduling, ObjectStorePlan,
    ProcessLocalDatabaseToken, SecondaryIndexLifecycleWorkerMode, WriteBounds,
};
use helix_db::error::{
    HelixDbError, IndexFamily, IndexLifecycleUnavailableReason, WriterMigrationRequirement,
};
use helix_db::lifecycle::{
    accept_index_change, accept_index_create, accept_index_drop, accept_secondary_step,
    definition_family, get_index_operation, identity_family, index_lifecycle_unavailable_reason,
    operation_not_found,
    record_to_drop, secondary_batch_limits, starts_index_worker, wakes_worker, worker_epoch,
    OperationExecutionState, SearchIndexBatchLimits, SecondaryTuning,
};
use helix_db::migrations::definitions::{
    IndexDefinitionFamily, IndexElementKind, IndexIdentityFamily, RangeIndexDirection,
    SecondaryIndexDefinition, SecondaryIndexKind, TextAnalyzerKind, TextIndexDefinition,
    ValidatedDynamicIndexDefinition,
};
use helix_db::migrations::records::{IndexOperationId, IndexRecord, IndexState, PhysicalLayout};
use helix_db::mode::HelixDbMode;
use helix_db::open::{OpenFailure, OpenStep};
use helix_db::runtime::{
    accept_reader_scan, catalog_refresh_proof_belongs_to, reconciles_before_scan,
    ActiveIndexHandle, CatalogGeneration, HelixRuntimeState, LoadedScopeCatalog,
};
use helix_db::scope::{DataScope, TenantId};
use helix_db::sequence::DatabaseSequence;
use helix_db::warm::{
    newest_ssts, ordered_handles, plan_vector_warm, scope_budget, slate_warm_summary, startup_warm,
    refreshes_again, FtsWarmSummary, RefreshSignal, SstId, StartupWarm, VectorMemoryHydrationMode, VectorWarmPlan,
};

fn equality(label: &str, property: &str) -> ValidatedDynamicIndexDefinition {
    ValidatedDynamicIndexDefinition::Secondary(SecondaryIndexDefinition {
        element_type: IndexElementKind::Node,
        kind: SecondaryIndexKind::Equality,
        label: label.to_string(),
        property: property.to_string(),
        unique: false,
        direction: RangeIndexDirection::Asc,
    })
}

fn text(label: &str, property: &str) -> ValidatedDynamicIndexDefinition {
    ValidatedDynamicIndexDefinition::Text(TextIndexDefinition {
        element_type: IndexElementKind::Node,
        label: label.to_string(),
        property: property.to_string(),
        tenant_property: None,
        analyzer: TextAnalyzerKind(0),
        positions_enabled: true,
    })
}

fn handle(
    scope: DataScope,
    index_id: u64,
    generation: u64,
    definition: ValidatedDynamicIndexDefinition,
) -> ActiveIndexHandle {
    ActiveIndexHandle { scope, index_id, generation, definition }
}

fn tenant(number: u128) -> DataScope {
    DataScope::Tenant(TenantId(number))
}

#[test]
fn foyer_disk_block_size_scales_embedded_and_managed_caches() {
    assert_eq!(foyer_disk_block_size(16 * 1024 * 1024), FOYER_MIN_DISK_BLOCK_SIZE_BYTES);
    assert_eq!(
        foyer_disk_block_size(352 * 1024 * 1024 * 1024),
        FOYER_MAX_DISK_BLOCK_SIZE_BYTES
    );
    assert_eq!(
        352 * 1024 * 1024 * 1024 / foyer_disk_block_size(352 * 1024 * 1024 * 1024),
        22_528
    );
}

#[test]
fn foyer_disk_blocks_grow_by_powers_of_two() {
    assert_eq!(foyer_disk_block_size(0), FOYER_MIN_DISK_BLOCK_SIZE_BYTES);
    assert_eq!(foyer_disk_block_size(2 * 1024 * 1024 * 1024), 64 * 1024);
    assert_eq!(foyer_disk_block_size(2 * 1024 * 1024 * 1024 + 1), 128 * 1024);
    assert_eq!(foyer_disk_block_size(usize::MAX), FOYER_MAX_DISK_BLOCK_SIZE_BYTES);
}

#[test]
fn embedded_sources_select_bounded_local_defaults() {
    for (source, flush_interval_millis, block_bytes, metadata_bytes) in [
        (
            HelixDbSource::InMemory { database: "memory-defaults".to_string() },
            1_u64,
            16 * 1024 * 1024_u64,
            8 * 1024 * 1024_u64,
        ),
        (
            HelixDbSource::Disk {
                root: "/tmp/helix-embedded-default-contract".to_string(),
                database: "disk-defaults".to_string(),
            },
            3,
            48 * 1024 * 1024,
            16 * 1024 * 1024,
        ),
    ] {
        let config = source.embedded_default_config();
        assert_eq!(config.flush_interval_millis, flush_interval_millis);
        assert_eq!(
            config.write_bounds,
            Some(WriteBounds {
                l0_sst_size_bytes: 16 * 1024 * 1024,
                max_unflushed_bytes: 64 * 1024 * 1024,
            })
        );
        assert_eq!(config.vector_budget_bytes, Some(64 * 1024 * 1024));
        assert_eq!(config.simhasher_cache_bytes, Some(8 * 1024 * 1024));
        assert_eq!(config.block_bytes, block_bytes);
        assert_eq!(config.metadata_bytes, metadata_bytes);
        assert_eq!(config.slate_warm, Some(CacheWarmMode::Off));
        assert_eq!(
            config.fts,
            Some(FtsMemoryCache { memory_bytes: 16 * 1024 * 1024, warm: CacheWarmMode::Off })
        );
    }

    let object_storage = HelixDbSource::ObjectStorage {
        database: "remote-defaults".to_string(),
        bucket: "bucket".to_string(),
        region: "region".to_string(),
        endpoint: None,
        allow_http: false,
    }
    .embedded_default_config();
    assert_eq!(object_storage.flush_interval_millis, 100);
    assert_eq!(object_storage.vector_budget_bytes, Some(256 * 1024 * 1024));
    assert_eq!(object_storage.block_bytes, 512 * 1024 * 1024);
    assert_eq!(object_storage.metadata_bytes, 128 * 1024 * 1024);
    assert_eq!(object_storage, DbConfig::new());
    assert_eq!(object_storage.max_unflushed_bytes(512 * 1024 * 1024), 512 * 1024 * 1024);
    let memory = HelixDbSource::InMemory { database: "other".to_string() };
    assert_eq!(
        memory.embedded_default_config().max_unflushed_bytes(512 * 1024 * 1024),
        64 * 1024 * 1024
    );
}

#[test]
fn object_storage_source_is_constructed_without_io() {
    let (path, store) = HelixDbSource::ObjectStorage {
        database: "facade-object-storage".into(),
        bucket: "test-bucket".into(),
        region: "us-east-1".into(),
        endpoint: Some("http://127.0.0.1:9000".into()),
        allow_http: true,
    }
    .into_parts();
    assert_eq!(path, "facade-object-storage");
    assert_eq!(
        store,
        ObjectStorePlan::Bucket {
            bucket: "test-bucket".to_string(),
            region: "us-east-1".to_string(),
            endpoint: Some("http://127.0.0.1:9000".to_string()),
            allow_http: true,
        }
    );
}

#[test]
fn process_local_tokens_name_the_store_they_share() {
    let route = || HelixDbSource::InMemoryToken {
        token: ProcessLocalDatabaseToken {
            database: "facade-process-local-token".to_string(),
            store: 7,
        },
    };
    let first = route().into_parts();
    assert_eq!(first, ("facade-process-local-token".to_string(), ObjectStorePlan::SharedMemory(7)));
    assert_eq!(first, route().into_parts());
    let (database, fresh) =
        HelixDbSource::InMemory { database: "alone".to_string() }.into_parts();
    assert_eq!((database.as_str(), fresh), ("alone", ObjectStorePlan::FreshMemory));
    let (_, directory) =
        HelixDbSource::Disk { root: "/data".to_string(), database: "db".to_string() }.into_parts();
    assert_eq!(directory, ObjectStorePlan::Directory("/data".to_string()));
}

#[test]
fn cache_modes_say_what_is_attached() {
    assert_eq!(CacheMode::VectorMemoryOnly.attach(false), Ok(CacheAttachment::Disabled));
    assert_eq!(CacheMode::Memory { fts: true }.attach(true), Ok(CacheAttachment::Built));
    assert!(CacheMode::Hybrid { fts: false }.attach(false).is_err());
    assert!(CacheMode::Memory { fts: true }.builds_fts_cache());
    assert!(!CacheMode::Memory { fts: false }.builds_fts_cache());
    assert!(!CacheMode::VectorMemoryOnly.builds_fts_cache());
}

#[test]
fn explicit_scheduling_overrides_every_family() {
    assert_eq!(
        IndexLifecycleScheduling::Configured.families(SecondaryIndexLifecycleWorkerMode::Disabled),
        FamilyScheduling {
            secondary: IndexDriverScheduling::ExplicitOnly,
            vector: IndexDriverScheduling::Automatic,
            text: IndexDriverScheduling::Automatic,
        }
    );
    assert_eq!(
        IndexLifecycleScheduling::ExplicitOnly.families(SecondaryIndexLifecycleWorkerMode::Enabled),
        FamilyScheduling {
            secondary: IndexDriverScheduling::ExplicitOnly,
            vector: IndexDriverScheduling::ExplicitOnly,
            text: IndexDriverScheduling::ExplicitOnly,
        }
    );
    assert_eq!(
        IndexLifecycleScheduling::Configured.resolve(IndexDriverScheduling::Automatic),
        IndexDriverScheduling::Automatic
    );
}

#[test]
fn cache_stats_are_publishable_without_cache_io() {
    let snapshot = cache_stats(
        CacheMode::Memory { fts: true },
        SlateUsage {
            memory: CacheUsageSnapshot::Ready {
                used_bytes: 5,
                capacity_bytes: Some(25_165_824),
            },
            disk: CacheUsageSnapshot::Disabled,
            object_store: CacheUsageSnapshot::Disabled,
        },
        Some(FtsUsage {
            retained_split_bytes: 0,
            memory_budget_bytes: 16_777_216,
            disk_artifact_bytes: 0,
            disk_budget_bytes: 0,
        }),
        0,
        Some(67_108_864),
    );
    assert!(snapshot.is_publishable());
    assert_eq!(
        snapshot.foyer_hybrid_disk,
        CacheTierSnapshot::disabled(CacheUsageSemantics::AllocatedBlocks)
    );
    assert!(matches!(
        snapshot.slate_memory.state,
        CacheTierState::Ready { capacity_bytes: Some(25_165_824), .. }
    ));
    assert!(matches!(
        snapshot.fts_memory.state,
        CacheTierState::Ready { used_bytes: 0, capacity_bytes: Some(16_777_216) }
    ));
    assert!(matches!(
        snapshot.vector_memory.state,
        CacheTierState::Ready { used_bytes: 0, capacity_bytes: Some(67_108_864) }
    ));
}

#[test]
fn only_unavailable_tiers_are_withheld() {
    let ready = CacheTierSnapshot::ready(CacheUsageSemantics::WeightedResident, 1, Some(2));
    assert!(ready.is_publishable());
    let starting = CacheTierSnapshot::from_slate(
        CacheUsageSemantics::PhysicalFiles,
        CacheUsageSnapshot::Initializing { capacity_bytes: None },
    );
    assert_eq!(starting.state, CacheTierState::Initializing { capacity_bytes: None });
    assert!(starting.is_publishable());
    let gone = CacheTierSnapshot::from_slate(
        CacheUsageSemantics::PhysicalFiles,
        CacheUsageSnapshot::Unavailable,
    );
    assert!(!gone.is_publishable());
}

#[test]
fn slate_cache_state_reports_the_last_warm() {
    let off = slate_cache_state(Some(CacheWarmMode::Off), None);
    assert!(!off.enabled);
    assert_eq!(off.warm_mode, Some(CacheWarmMode::Off));
    assert!(off.last_warm.is_none());
    let summary = slate_warm_summary(4, 1, 30);
    assert_eq!(
        summary,
        SlateWarmSummary { sst_count: 4, warmed_ssts: 3, warm_errors: 1, warm_elapsed_ms: 30 }
    );
    let warmed = slate_cache_state(Some(CacheWarmMode::Background), Some(summary));
    assert!(warmed.enabled);
    assert_eq!(warmed.last_warm, Some(summary));
    assert!(!slate_cache_state(None, None).enabled);
    assert_eq!(SlateWarmSummary::default(), slate_warm_summary(0, 0, 0));
}

#[test]
fn newest_tables_are_warmed_first() {
    let ids = vec![
        SstId { kind: 0, number: 5 },
        SstId { kind: 1, number: 2 },
        SstId { kind: 0, number: 9 },
        SstId { kind: 1, number: 7 },
    ];
    let selected = newest_ssts(&ids, 2);
    assert_eq!(selected, vec![SstId { kind: 1, number: 7 }, SstId { kind: 1, number: 2 }]);
    assert_eq!(newest_ssts(&ids, 10).len(), 4);
    assert!(newest_ssts(&ids, 0).is_empty());
}

#[test]
fn scope_shares_make_up_the_vector_budget() {
    let shares: Vec<u64> =
        (0..3).map(|ordinal| scope_budget(Some(11), 3, ordinal).expect("bounded share")).collect();
    assert_eq!(shares, vec![4, 4, 3]);
    assert_eq!(shares.iter().sum::<u64>(), 11);
    assert_eq!(scope_budget(None, 3, 0), None);
}

#[test]
fn text_warming_adds_up_what_it_met() {
    let mut total = FtsWarmSummary::start(2);
    let warmed = FtsWarmSummary {
        generation_count: 0,
        split_count: 3,
        opened_splits: 2,
        hydrated_splits: 1,
        hydrated_bytes: 10,
        warm_errors: 1,
        warm_elapsed_ms: 0,
    };
    assert!(total.can_absorb(&warmed));
    total.absorb(&warmed);
    total.count_error();
    assert_eq!(total.generation_count, 2);
    assert_eq!((total.split_count, total.opened_splits, total.hydrated_splits), (3, 2, 1));
    assert_eq!((total.hydrated_bytes, total.warm_errors), (10, 2));
    let huge = FtsWarmSummary { hydrated_bytes: u64::MAX, ..warmed };
    assert!(!total.can_absorb(&huge));
}

#[test]
fn startup_warming_follows_its_mode() {
    assert_eq!(startup_warm(None), StartupWarm::Skip);
    assert_eq!(startup_warm(Some(CacheWarmMode::Off)), StartupWarm::Skip);
    assert_eq!(startup_warm(Some(CacheWarmMode::Blocking)), StartupWarm::Now);
    assert_eq!(startup_warm(Some(CacheWarmMode::Background)), StartupWarm::Spawn);
    assert_eq!(
        plan_vector_warm(HelixDbMode::Writer, VectorMemoryHydrationMode::BlockingThenBackground),
        VectorWarmPlan { refresh_now: true, spawn_task: true }
    );
    assert_eq!(
        plan_vector_warm(HelixDbMode::ReadOnly, VectorMemoryHydrationMode::Background),
        VectorWarmPlan { refresh_now: false, spawn_task: false }
    );
    assert_eq!(
        plan_vector_warm(HelixDbMode::Writer, VectorMemoryHydrationMode::Background),
        VectorWarmPlan { refresh_now: false, spawn_task: true }
    );
}

#[test]
fn vector_refreshing_ends_with_its_shutdown() {
    assert!(refreshes_again(RefreshSignal::IntervalElapsed));
    assert!(refreshes_again(RefreshSignal::ShutdownFlag(false)));
    assert!(!refreshes_again(RefreshSignal::ShutdownFlag(true)));
    assert!(!refreshes_again(RefreshSignal::ShutdownLost));
}

#[test]
fn runtime_state_tracks_loaded_catalogs_per_scope() {
    let scope = tenant(10);
    let mut state = HelixRuntimeState::new(
        DataScope::LegacyUnscoped,
        LoadedScopeCatalog::new(DataScope::LegacyUnscoped),
    );
    assert_eq!(state.generation(DataScope::LegacyUnscoped), CatalogGeneration::initial());
    state.replace_catalog(scope, LoadedScopeCatalog::new(scope));
    assert_eq!(state.generation(scope), CatalogGeneration::initial());
    state.replace_catalog(scope, LoadedScopeCatalog::new(scope));
    assert_eq!(state.generation(scope), CatalogGeneration::initial().next());
    assert_eq!(state.loaded_scopes(), vec![DataScope::LegacyUnscoped, scope]);
}

#[test]
fn runtime_catalog_replacement_removes_stale_dynamic_rows() {
    let scope = DataScope::LegacyUnscoped;
    let mut loaded = LoadedScopeCatalog::new(scope);
    loaded.insert_active(handle(scope, 1, 1, equality("User", "email")));
    let mut state = HelixRuntimeState::new(scope, loaded);

    assert!(state.catalog(scope).has_scoped_equality_index("User", "email"));
    state.replace_catalog(scope, LoadedScopeCatalog::new(scope));
    assert!(!state.catalog(scope).has_scoped_equality_index("User", "email"));
}

#[test]
fn replacing_one_catalog_leaves_the_others() {
    let first = tenant(1);
    let second = tenant(2);
    let mut loaded = LoadedScopeCatalog::new(first);
    loaded.insert_active(handle(first, 4, 1, equality("User", "email")));
    let mut state = HelixRuntimeState::new(first, loaded);
    state.replace_catalog(second, LoadedScopeCatalog::new(second));
    assert_eq!(state.active_handles(first).len(), 1);
    assert!(state.active_handles(second).is_empty());
    assert!(state.active_handles(tenant(3)).is_empty());
    assert!(state.is_loaded(first) && state.is_loaded(second) && !state.is_loaded(tenant(3)));
    assert_eq!(state.generation(first).get(), CatalogGeneration::initial().get());
}

#[test]
fn text_handles_are_warmed_in_order_and_bounded() {
    let scope = DataScope::LegacyUnscoped;
    let mut loaded = LoadedScopeCatalog::new(scope);
    loaded.insert_active(handle(scope, 9, 1, text("Document", "body")));
    loaded.insert_active(handle(scope, 3, 2, text("Document", "title")));
    loaded.insert_active(handle(scope, 1, 1, equality("User", "email")));
    let state = HelixRuntimeState::new(scope, loaded);
    let all: Vec<u64> =
        state.text_handles_to_warm(None).iter().map(|handle| handle.index_id).collect();
    assert_eq!(all, vec![3, 9]);
    let bounded: Vec<u64> =
        state.text_handles_to_warm(Some(1)).iter().map(|handle| handle.index_id).collect();
    assert_eq!(bounded, vec![3]);
}

#[test]
fn handles_are_ordered_by_scope_index_and_generation() {
    let ordered = ordered_handles(vec![
        handle(tenant(2), 1, 1, equality("A", "a")),
        handle(DataScope::LegacyUnscoped, 2, 1, equality("B", "b")),
        handle(DataScope::LegacyUnscoped, 1, 5, equality("C", "c")),
        handle(DataScope::LegacyUnscoped, 1, 2, equality("D", "d")),
    ]);
    let order: Vec<(DataScope, u64, u64)> =
        ordered.iter().map(|h| (h.scope, h.index_id, h.generation)).collect();
    assert_eq!(
        order,
        vec![
            (DataScope::LegacyUnscoped, 1, 2),
            (DataScope::LegacyUnscoped, 1, 5),
            (DataScope::LegacyUnscoped, 2, 1),
            (tenant(2), 1, 1),
        ]
    );
    assert!(DataScope::LegacyUnscoped.precedes(&tenant(0)));
    assert!(tenant(1).precedes(&tenant(2)));
    assert!(!tenant(2).precedes(&tenant(2)));
}

#[test]
fn refresh_proofs_hold_for_their_issuer_and_scope_alone() {
    let scope = tenant(1);
    assert!(catalog_refresh_proof_belongs_to(Some(4), 4, scope, scope));
    assert!(!catalog_refresh_proof_belongs_to(None, 4, scope, scope));
    assert!(!catalog_refresh_proof_belongs_to(Some(5), 4, scope, scope));
    assert!(!catalog_refresh_proof_belongs_to(Some(4), 4, tenant(2), scope));
    assert_eq!(accept_reader_scan(false), Ok(()));
    assert_eq!(accept_reader_scan(true), Err(HelixDbError::RequestReadViewChanged));
    assert!(reconciles_before_scan(HelixDbMode::Writer));
    assert!(!reconciles_before_scan(HelixDbMode::ReadOnly));
}

#[test]
fn concurrent_close_joins_one_writer_worker_and_is_idempotent() {
    let mut state = CloseState::Open;
    assert!(state.is_open());
    assert_eq!(state.ask(), CloseTurn::Perform);
    assert_eq!(state.ask(), CloseTurn::Wait);
    assert_eq!(state.ask(), CloseTurn::Wait);
    assert_eq!(state.finish(true), 2);
    assert_eq!(state, CloseState::Closed);
    assert_eq!(state.ask(), CloseTurn::Done);
}

#[test]
fn failed_close_can_be_asked_for_again() {
    let mut state = CloseState::Open;
    assert_eq!(state.ask(), CloseTurn::Perform);
    assert_eq!(state.finish(false), 0);
    assert_eq!(state, CloseState::Open);
    assert_eq!(state.ask(), CloseTurn::Perform);
}

#[test]
fn closing_stops_tasks_before_storage() {
    let mut steps = vec![CloseStep::first()];
    while let Some(next) = steps[steps.len() - 1].next() {
        steps.push(next);
    }
    let storage = steps.iter().position(|step| *step == CloseStep::CloseStorage).unwrap();
    for stopped in [
        CloseStep::StopIndexWorker,
        CloseStep::StopSlateWarm,
        CloseStep::StopFtsWarm,
        CloseStep::StopVectorRefresh,
    ] {
        assert!(steps.iter().position(|step| *step == stopped).unwrap() < storage);
    }
    assert_eq!(steps.len(), 10);
    assert!(CloseStep::CloseStorage.can_fail());
    assert!(!CloseStep::StopSlateWarm.can_fail());
}

#[test]
fn writers_migrate_before_they_serve_and_readers_never_write() {
    let walk = |mode| {
        let mut steps = vec![OpenStep::first()];
        while steps[steps.len() - 1] != OpenStep::Ready {
            steps.push(steps[steps.len() - 1].next(mode));
        }
        steps
    };
    let writer = walk(HelixDbMode::Writer);
    let place = |step: OpenStep| writer.iter().position(|found| *found == step).unwrap();
    assert!(place(OpenStep::PreflightReservations) < place(OpenStep::StartupMigration));
    assert!(place(OpenStep::StartupMigration) < place(OpenStep::LoadCatalog));
    assert!(place(OpenStep::MigrateDefinitions) < place(OpenStep::Ready));
    let reader = walk(HelixDbMode::ReadOnly);
    for writing in [
        OpenStep::BootstrapWriter,
        OpenStep::PreflightReservations,
        OpenStep::StartupMigration,
        OpenStep::MigrateDefinitions,
    ] {
        assert!(!reader.contains(&writing));
    }
    assert!(reader.contains(&OpenStep::RequireBootstrap));
    assert_eq!(OpenStep::MigrateDefinitions.on_failure(), OpenFailure::CloseThenReturn);
    assert_eq!(OpenStep::OpenStorage.on_failure(), OpenFailure::Return);
}

#[test]
fn modes_guard_writes() {
    assert_eq!(HelixDbMode::ReadOnly.as_str(), "reader");
    assert_eq!(HelixDbMode::Writer.as_str(), "writer");
    assert_eq!(HelixDbMode::Writer.require_writer(), Ok(()));
    assert_eq!(
        HelixDbMode::ReadOnly.require_writer(),
        Err(HelixDbError::WriterModeRequired { actual: "reader" })
    );
}

#[test]
fn sequences_lag_one_way() {
    let reader = DatabaseSequence::new(3);
    let writer = DatabaseSequence::new(10);
    assert_eq!(reader.lag_to(writer), 7);
    assert_eq!(writer.lag_to(reader), 0);
    assert_eq!(DatabaseSequence::initial().get(), 0);
    assert_eq!(DatabaseSequence::default(), DatabaseSequence::initial());
}

#[test]
fn index_changes_need_a_writer() {
    let definition = equality("User", "email");
    assert_eq!(accept_index_create(HelixDbMode::Writer, &definition), Ok(()));
    assert_eq!(
        accept_index_create(HelixDbMode::ReadOnly, &definition),
        Err(HelixDbError::WriterModeRequired { actual: "reader" })
    );
    assert_eq!(
        accept_index_drop(HelixDbMode::ReadOnly, IndexIdentityFamily::Text),
        Err(HelixDbError::WriterModeRequired { actual: "reader" })
    );
    assert_eq!(accept_index_drop(HelixDbMode::Writer, IndexIdentityFamily::Vector), Ok(()));
    assert_eq!(
        index_lifecycle_unavailable_reason(IndexFamily::DynamicIndexes),
        Some(IndexLifecycleUnavailableReason::MutationMaintenanceUnavailable)
    );
    assert_eq!(
        accept_index_change(HelixDbMode::Writer, IndexFamily::DynamicIndexes),
        Err(HelixDbError::IndexLifecycleUnavailable {
            family: IndexFamily::DynamicIndexes,
            reason: IndexLifecycleUnavailableReason::MutationMaintenanceUnavailable,
        })
    );
    assert_eq!(definition_family(IndexDefinitionFamily::Vector), IndexFamily::Vector);
    assert_eq!(identity_family(IndexIdentityFamily::SecondaryRange), IndexFamily::Secondary);
}

#[test]
fn missing_indexes_and_operations_are_named() {
    let missing = record_to_drop(None, "User.email".to_string());
    assert!(matches!(missing, Err(HelixDbError::IndexNotFound(name)) if name == "User.email"));
    let record = IndexRecord {
        index_id: 1,
        generation: 1,
        definition: equality("User", "email"),
        state: IndexState::Active,
        physical: PhysicalLayout::Secondary,
    };
    assert!(record_to_drop(Some(&record), "User.email".to_string()).is_ok());
    assert_eq!(
        operation_not_found(IndexOperationId(0x0123_4567_89ab_cdef_0123_4567_89ab_cdef)),
        HelixDbError::IndexOperationNotFound {
            operation_id: "01234567-89ab-cdef-0123-456789abcdef".to_string(),
        }
    );
    assert_eq!(IndexOperationId(1).text(), "00000000-0000-0000-0000-000000000001");
    assert_eq!(get_index_operation(Some("queued"), IndexOperationId(1)), Ok("queued"));
    assert_eq!(
        get_index_operation::<&str>(None, IndexOperationId(1)),
        Err(operation_not_found(IndexOperationId(1)))
    );
}

#[test]
fn secondary_steps_need_an_open_writer_without_a_worker() {
    let disabled = SecondaryIndexLifecycleWorkerMode::Disabled;
    assert_eq!(accept_secondary_step(HelixDbMode::Writer, disabled, true, Some(6)), Ok(6));
    assert_eq!(
        accept_secondary_step(
            HelixDbMode::Writer,
            SecondaryIndexLifecycleWorkerMode::Enabled,
            true,
            Some(6)
        ),
        Err(HelixDbError::SecondaryLifecycleSteppingRequiresDisabledMode)
    );
    assert_eq!(
        accept_secondary_step(HelixDbMode::Writer, disabled, false, Some(6)),
        Err(HelixDbError::DatabaseClosed)
    );
    assert_eq!(
        accept_secondary_step(HelixDbMode::ReadOnly, disabled, true, None),
        Err(HelixDbError::WriterModeRequired { actual: "reader" })
    );
    assert_eq!(worker_epoch(Some(3)), Ok(3));
    assert_eq!(worker_epoch(None), Err(HelixDbError::DatabaseClosed));
    assert!(starts_index_worker(HelixDbMode::Writer));
    assert!(!starts_index_worker(HelixDbMode::ReadOnly));
    assert!(wakes_worker(OperationExecutionState::Queued));
    assert!(!wakes_worker(OperationExecutionState::Succeeded));
}

#[test]
fn secondary_batches_take_their_limits_from_the_tuning() {
    let limits = secondary_batch_limits(SecondaryTuning {
        batch_rows: 1,
        max_input_bytes: 2,
        max_output_operations: 3,
        max_output_bytes: 4,
    });
    assert_eq!(
        limits,
        SearchIndexBatchLimits {
            rows: 1,
            input_bytes: 2,
            output_operations: 3,
            output_bytes: 4,
            artifact_bytes: 4,
        }
    );
}

#[test]
fn writer_requirements_are_spelled_out() {
    assert_eq!(
        WriterMigrationRequirement::IncompleteStorageSchema.text(),
        "storage schema migration is incomplete"
    );
    assert_eq!(
        WriterMigrationRequirement::StorageVersion { found: 2, target: 4 }.text(),
        "storage version 2 must be upgraded to 4"
    );
    assert!(HelixDbError::ZeroNormCosineVector.is_invalid_vector_input());
    assert!(!HelixDbError::DatabaseClosed.is_invalid_vector_input());
}
