//! Migration jobs: their lifecycle, their stored form, their batches and their turns.
use std::collections::BTreeMap;

use helix_db::error::HelixDbError;
use helix_db::migrations::acceptance::recovery_cases;
use helix_db::migrations::batch::{
    check_property_index_row, read_stage_batch, BatchMeter, MigrationRowLimit,
    MigrationSourceBatch, MigrationTuning, SourceRow, VectorKeyShape,
};
use helix_db::migrations::controller::{
    apply_batch, begin_turn, boundaries_after_commit, boundaries_before_commit, end_turn,
    next_background_job, select_work, MigrationBatch, MigrationRunCatalog, MigrationStep,
    StageWork, TurnEnd,
};
use helix_db::migrations::edges::open_batch;
use helix_db::migrations::failpoints::{
    inject_migration_failpoint_once, migration_failpoint_was_triggered, trip_migration_failpoint,
    FailpointEnvironment, FailpointOutcome, MigrationFailpoint, MigrationFailpoints,
};
use helix_db::migrations::job::{
    advance_or_complete, MigrationId, MigrationJob, MigrationJobState, MigrationMode,
    MigrationResumeKey, MigrationStage, StageKeyspace,
};
use helix_db::migrations::job_codec::{decode_json, encode_json, take_job};
use helix_db::migrations::keys::{
    increment_prefix, migration_job_scan_prefix_scoped, scan_bounds_for_prefix,
    scoped_metadata_key, MigrationJobKey, ScanBound,
};
use helix_db::migrations::parity::{
    migration_parity_job_statuses, parity_state, MigrationParityId, MigrationParityJobStatus,
    MigrationParityMode, MigrationParityStage, MigrationParityState,
};
use helix_db::migrations::recovery::{recovery_checkpoint_holds, VectorRecoveryStage};
use serde::de::{Deserialize, Deserializer, Error, MapAccess, Visitor};

/// Reader of stored jobs, which says what is wrong with bytes that are none.
struct StoredJob;

struct StoredState;

struct StoredResumeKey;

const JOB_FIELDS: &[&str] = &["id", "mode", "state"];
const STATE_FIELDS: &[&str] = &["stage", "resume_after_key", "processed_rows", "error"];

impl<'de> Deserialize<'de> for StoredResumeKey {
    fn deserialize<D: Deserializer<'de>>(deserializer: D) -> Result<Self, D::Error> {
        let bytes = Vec::<u8>::deserialize(deserializer)?;
        MigrationResumeKey::try_from_bytes(bytes).map_err(D::Error::custom)?;
        Ok(StoredResumeKey)
    }
}

struct ContentVisitor;

impl<'de> Visitor<'de> for ContentVisitor {
    type Value = StoredState;

    fn expecting(&self, formatter: &mut std::fmt::Formatter<'_>) -> std::fmt::Result {
        formatter.write_str("struct variant of MigrationJobState")
    }

    fn visit_map<A: MapAccess<'de>>(self, mut map: A) -> Result<StoredState, A::Error> {
        let mut seen: Vec<String> = Vec::new();
        while let Some(name) = map.next_key::<String>()? {
            match name.as_str() {
                "stage" | "error" => {
                    map.next_value::<String>()?;
                }
                "processed_rows" => {
                    map.next_value::<u64>()?;
                }
                "resume_after_key" => {
                    map.next_value::<Option<StoredResumeKey>>()?;
                }
                _ => return Err(A::Error::unknown_field(&name, STATE_FIELDS)),
            }
            seen.push(name);
        }
        if seen.iter().any(|name| name == "processed_rows") {
            Ok(StoredState)
        } else {
            Err(A::Error::missing_field("processed_rows"))
        }
    }
}

impl<'de> Deserialize<'de> for StoredState {
    fn deserialize<D: Deserializer<'de>>(deserializer: D) -> Result<Self, D::Error> {
        deserializer.deserialize_map(ContentVisitor)
    }
}

struct JobVisitor;

impl<'de> Visitor<'de> for JobVisitor {
    type Value = StoredJob;

    fn expecting(&self, formatter: &mut std::fmt::Formatter<'_>) -> std::fmt::Result {
        formatter.write_str("struct MigrationJob")
    }

    fn visit_map<A: MapAccess<'de>>(self, mut map: A) -> Result<StoredJob, A::Error> {
        let mut seen: Vec<&'static str> = Vec::new();
        while let Some(name) = map.next_key::<String>()? {
            let Some(field) = JOB_FIELDS.iter().find(|field| **field == name) else {
                return Err(A::Error::unknown_field(&name, JOB_FIELDS));
            };
            if seen.contains(field) {
                return Err(A::Error::duplicate_field(field));
            }
            if *field == "state" {
                map.next_value::<BTreeMap<String, StoredState>>()?;
            } else {
                map.next_value::<String>()?;
            }
            seen.push(field);
        }
        match JOB_FIELDS.iter().find(|field| !seen.contains(field)) {
            Some(missing) => Err(A::Error::missing_field(missing)),
            None => Ok(StoredJob),
        }
    }
}

impl<'de> Deserialize<'de> for StoredJob {
    fn deserialize<D: Deserializer<'de>>(deserializer: D) -> Result<Self, D::Error> {
        deserializer.deserialize_struct("MigrationJob", JOB_FIELDS, JobVisitor)
    }
}

/// Decodes a stored job, with what its reader says against it.
fn read_job(bytes: &[u8]) -> Result<MigrationJob, HelixDbError> {
    let refusal = match serde_json::from_slice::<StoredJob>(bytes) {
        Ok(_) => String::new(),
        Err(error) => error.to_string(),
    };
    decode_json(bytes, &refusal)
}

fn resume(bytes: &[u8]) -> MigrationResumeKey {
    MigrationResumeKey::try_from_bytes(bytes.to_vec()).expect("test resume key is non-empty")
}

fn rewrite() -> MigrationJob {
    MigrationJob::new(MigrationId::GraphFormatV1Rewrite, MigrationMode::BlockingStartup)
}

fn source(key: &[u8], value: &[u8]) -> SourceRow {
    SourceRow { key: key.to_vec(), value: value.to_vec() }
}

fn quiet() -> FailpointEnvironment {
    FailpointEnvironment { failpoint: None, action: None }
}

fn config_text<T: std::fmt::Debug>(result: Result<T, HelixDbError>) -> String {
    match result {
        Err(HelixDbError::Config(text)) => text,
        other => panic!("expected a configuration failure, got {other:?}"),
    }
}

#[test]
fn migration_job_keys_are_scoped() {
    let scope_a = 10_u128.to_be_bytes();
    let scope_b = 11_u128.to_be_bytes();
    let key_a = MigrationJobKey::new(&scope_a, MigrationId::GraphFormatV1Rewrite);
    let key_b = MigrationJobKey::new(&scope_b, MigrationId::GraphFormatV1Rewrite);

    assert_ne!(key_a, key_b);
    assert!(key_a.as_bytes().starts_with(&migration_job_scan_prefix_scoped(&scope_a)));
    assert!(key_b.as_bytes().starts_with(&migration_job_scan_prefix_scoped(&scope_b)));
    assert!(!key_a.as_bytes().starts_with(&migration_job_scan_prefix_scoped(&scope_b)));
    assert_eq!(
        MigrationJobKey::new(&[], MigrationId::GraphFormatV1Cleanup).into_bytes(),
        b"\xFFkv_migration_job:graph_format_v1_cleanup".to_vec()
    );
    assert_eq!(scoped_metadata_key(&[7], b"name"), b"\x07\xFFname".to_vec());
}

#[test]
fn failed_job_retries_from_exact_durable_checkpoint() {
    let mut job = rewrite();
    job.record_advanced(resume(&[0x02, 0x01]), 17);
    job.fail("transient object-store timeout".to_string());
    assert!(job.is_failed());

    job.retry();

    assert_eq!(
        job.state,
        MigrationJobState::Running {
            stage: MigrationStage::PropertyIndexes,
            resume_after_key: Some(resume(&[0x02, 0x01])),
            processed_rows: 17,
        }
    );
}

#[test]
fn post_completion_failure_preserves_the_completed_counter() {
    let mut job = MigrationJob::new(
        MigrationId::LegacyVectorPhysicalCleanup,
        MigrationMode::BlockingStartup,
    );
    job.record_advanced(resume(&[0x02, 0x01]), 17);
    job.complete();

    job.fail("error observed after the committed transition".to_string());

    assert_eq!(job.state, MigrationJobState::Completed { processed_rows: 17 });
    assert!(job.is_completed() && !job.is_runnable());
}

#[test]
fn migration_job_json_rejects_empty_resume_keys_and_unknown_fields() {
    let empty_resume = br#"{
        "id":"graph_format_v1_rewrite",
        "mode":"blocking_startup",
        "state":{"running":{"stage":"node_properties","resume_after_key":[],"processed_rows":0}}
    }"#;
    let error = config_text(read_job(empty_resume));
    assert!(error.contains("migration resume key cannot be empty"));

    let unknown_field = br#"{
        "id":"graph_format_v1_rewrite",
        "mode":"blocking_startup",
        "state":{"completed":{"processed_rows":0}},
        "surprise":true
    }"#;
    let error = config_text(read_job(unknown_field));
    assert!(error.contains("unknown field"));
}

#[test]
fn stored_jobs_decode_to_themselves() {
    let mut running = rewrite();
    running.record_advanced(resume(&[0, 255, 7]), u64::MAX);
    let mut failed = MigrationJob::new(
        MigrationId::LegacyVectorPhysicalCleanup,
        MigrationMode::BlockingStartup,
    );
    failed.advance_stage(MigrationStage::LegacyVectorLayer0Rows);
    failed.fail("quoted \"text\": with {colons: 1}".to_string());
    let mut completed =
        MigrationJob::new(MigrationId::GraphFormatV1Cleanup, MigrationMode::Background);
    completed.complete();
    for job in [running, failed, completed] {
        let bytes = encode_json(&job).expect("job encodes");
        assert_eq!(decode_json(&bytes, "").expect("job decodes"), job);
    }
}

#[test]
fn stored_jobs_have_a_frozen_form() {
    let mut job = rewrite();
    job.record_advanced(resume(&[2, 1]), 17);
    assert_eq!(
        String::from_utf8(encode_json(&job).expect("job encodes")).expect("utf-8"),
        "{\"id\":\"graph_format_v1_rewrite\",\"mode\":\"blocking_startup\",\"state\":\
         {\"running\":{\"stage\":\"property_indexes\",\"resume_after_key\":[2,1],\
         \"processed_rows\":17}}}"
    );
}

#[test]
fn malformed_stored_jobs_are_refused() {
    let refused: [&[u8]; 12] = [
        b"{",
        b"[]",
        b"{\"id\":\"graph_format_v1_rewrite\",\"mode\":\"background\"}",
        b"{\"id\":\"graph_format_v1_rewrite\",\"id\":\"graph_format_v1_rewrite\",\
            \"mode\":\"background\",\"state\":{\"completed\":{\"processed_rows\":0}}}",
        b"{\"id\":\"graph_format_v1_rewrite\",\"mode\":\"background\",\
            \"state\":{\"completed\":{\"processed_rows\":-1}}}",
        b"{\"id\":\"graph_format_v1_rewrite\",\"mode\":\"background\",\"state\":\
            {\"running\":{\"stage\":\"no_stage\",\"processed_rows\":0}}}",
        b"{\"id\":\"graph_format_v1_rewrite\",\"mode\":\"x\",\
            \"state\":{\"completed\":{\"processed_rows\":0}}}",
        b"{\"id\":\"x\",\"mode\":\"background\",\
            \"state\":{\"completed\":{\"processed_rows\":0}}}",
        b"{\"id\":\"graph_format_v1_rewrite\",\"mode\":\"background\",\"x\":1}",
        b"{\"id\":\"graph_format_v1_rewrite\",\"mode\":\"background\",\
            \"state\":{\"completed\":{\"rows\":1}}}",
        b"{\"id\":\"graph_format_v1_rewrite\",\"mode\":\"background\",\
            \"state\":{\"paused\":{\"processed_rows\":1}}}",
        b"{\"id\":\"graph_format_v1_rewrite\",\"mode\":\"background\",\"state\":\
            {\"running\":{\"stage\":\"edge_endpoints\",\"resume_after_key\":[256],\
            \"processed_rows\":0}}}",
    ];
    for bytes in refused {
        assert_eq!(
            config_text(decode_json(bytes, "what the reader says")),
            "failed to decode migration job: what the reader says"
        );
    }
    assert!(take_job(serde_json::Value::Array(vec![])).is_none());
}

#[test]
fn refused_jobs_are_reported_in_the_words_of_the_reader() {
    let surprise = b"{\"id\":\"graph_format_v1_rewrite\",\"mode\":\"background\",\"x\":1}";
    assert_eq!(
        config_text(read_job(surprise)),
        "failed to decode migration job: unknown field `x`, \
         expected one of `id`, `mode`, `state` at line 1 column 55"
    );
    let twice = b"{\"id\":\"graph_format_v1_rewrite\",\"id\":\"graph_format_v1_rewrite\"}";
    assert!(config_text(read_job(twice)).contains("duplicate field `id` at line 1 column"));
    let missing = b"{\"id\":\"graph_format_v1_rewrite\",\"mode\":\"background\"}";
    assert!(config_text(read_job(missing)).contains("missing field `state` at line 1 column"));
}

#[test]
fn other_forms_of_stored_jobs_decode() {
    let listed = b"[\"graph_format_v1_cleanup\",{\"background\":null},{\"completed\":[4]}]";
    let mut job = MigrationJob::new(MigrationId::GraphFormatV1Cleanup, MigrationMode::Background);
    job.state = MigrationJobState::Completed { processed_rows: 4 };
    assert_eq!(decode_json(listed, "").expect("lists are read by position"), job);
    let absent = b"{\"state\":{\"running\":{\"stage\":\"legacy_edge_pairs\",\
        \"processed_rows\":2}},\"mode\":\"background\",\"id\":\"graph_format_v1_cleanup\"}";
    job.state = MigrationJobState::Running {
        stage: MigrationStage::LegacyEdgePairs,
        resume_after_key: None,
        processed_rows: 2,
    };
    assert_eq!(decode_json(absent, "").expect("an absent key is no key"), job);
}

#[test]
fn jobs_walk_their_stages_in_order() {
    let mut job = MigrationJob::new(
        MigrationId::LegacyVectorPhysicalCleanup,
        MigrationMode::BlockingStartup,
    );
    let mut stages = vec![];
    while let Some(stage) = job.state.running_stage() {
        stages.push(stage.log_name());
        advance_or_complete(&mut job);
    }
    assert_eq!(
        stages,
        vec![
            "fence_legacy_vector_sources",
            "legacy_vector_hot_rows",
            "legacy_vector_layer_zero_rows",
            "legacy_vector_core_rows",
            "legacy_vector_definitions",
            "release_legacy_vector_reservations",
        ]
    );
    assert!(job.is_completed());
    assert_eq!(MigrationId::GraphFormatV1Rewrite.initial_stage(), MigrationStage::PropertyIndexes);
    assert_eq!(MigrationId::GraphFormatV1Rewrite.storage_name(), b"graph_format_v1_rewrite");
    assert_eq!(MigrationId::GraphFormatV1Cleanup.log_name(), "graph_format_v1_cleanup");
    assert_eq!(MigrationMode::Background.log_name(), "background");
    assert_eq!(MigrationStage::EdgeEndpoints.keyspace(), StageKeyspace::EdgeEndpoints);
    assert_eq!(job.state.log_name(), "completed");
}

#[test]
fn counted_rows_saturate() {
    let mut job = rewrite();
    job.record_advanced(resume(&[1]), u64::MAX);
    job.record_advanced(resume(&[2]), 5);
    assert_eq!(job.state.processed_rows(), u64::MAX);
    assert!(MigrationResumeKey::new(vec![]).is_none());
    assert_eq!(
        MigrationResumeKey::try_from_bytes(vec![]),
        Err("migration resume key cannot be empty")
    );
    assert_eq!(resume(&[4, 2]).into_bytes(), vec![4, 2]);
}

#[test]
fn prefixes_are_key_ranges() {
    assert_eq!(increment_prefix(&[1, 2]), Some(vec![1, 3]));
    assert_eq!(increment_prefix(&[1, 0xFF]), Some(vec![2]));
    assert_eq!(increment_prefix(&[0xFF, 0xFF]), None);
    assert_eq!(increment_prefix(&[]), None);
    assert_eq!(
        scan_bounds_for_prefix(&[1], None),
        (ScanBound::Included(vec![1]), ScanBound::Excluded(vec![2]))
    );
    assert_eq!(
        scan_bounds_for_prefix(&[0xFF], Some(&resume(&[0xFF, 3]))),
        (ScanBound::Excluded(vec![0xFF, 3]), ScanBound::Unbounded)
    );
}

#[test]
fn scan_batch_obeys_typed_source_byte_budget() {
    let first = source(b"node-1", b"first-value");
    let second = source(b"node-2", b"other-value");
    let first_row_bytes = b"node-1".len() + b"first-value".len();
    let tuning = MigrationTuning::new(10, first_row_bytes).expect("positive limits");
    let batch = read_stage_batch(
        &rewrite().state,
        vec![first, second],
        MigrationRowLimit::Tuned,
        tuning,
    )
    .expect("bounded scan succeeds");
    let MigrationSourceBatch::Advanced { rows, resume_after_key, source_bytes } = batch else {
        panic!("one row fits");
    };
    assert_eq!(rows.len(), 1);
    assert_eq!(resume_after_key, resume(b"node-1"));
    assert_eq!(source_bytes, first_row_bytes as u64);
}

#[test]
fn scan_batch_fails_closed_when_one_row_exceeds_byte_budget() {
    let tuning = MigrationTuning::new(10, 1).expect("positive limits");
    let error = config_text(read_stage_batch(
        &rewrite().state,
        vec![source(b"node-1", b"oversized")],
        MigrationRowLimit::Tuned,
        tuning,
    ));
    assert!(error.contains("exceeding the 1 byte batch limit"));
}

#[test]
fn cleanup_uses_byte_budget_instead_of_reopening_for_each_row_batch() {
    let tuning = MigrationTuning::new(1, 1024).expect("positive limits");
    let rows = || vec![source(b"a", b""), source(b"b", b""), source(b"c", b"")];
    let job = MigrationJob::new(MigrationId::GraphFormatV1Cleanup, MigrationMode::Background);
    let work = select_work(&job, MigrationRunCatalog::Absent)
        .expect("cleanup has work")
        .expect("cleanup is running");
    let batch = read_stage_batch(&job.state, rows(), work.row_limit(), tuning)
        .expect("cleanup scan succeeds");
    let (read, batch) = open_batch(batch);
    assert_eq!(read.len(), 3);
    assert!(matches!(batch, MigrationBatch::Advanced { rows: 3, .. }));
    assert_eq!(StageWork::RewriteLegacyEdgePairs.row_limit(), MigrationRowLimit::Tuned);
    let tuned = read_stage_batch(&job.state, rows(), MigrationRowLimit::Tuned, tuning)
        .expect("tuned scan succeeds");
    assert!(matches!(tuned, MigrationSourceBatch::Advanced { rows, .. } if rows.len() == 1));
}

#[test]
fn exhausted_scans_complete_the_stage() {
    let tuning = MigrationTuning::new(1, 1).expect("positive limits");
    assert_eq!((tuning.batch_rows(), tuning.batch_bytes()), (1, 1));
    assert!(MigrationTuning::new(0, 1).is_none() && MigrationTuning::new(1, 0).is_none());
    let empty =
        read_stage_batch(&rewrite().state, vec![], MigrationRowLimit::Tuned, tuning);
    assert_eq!(empty, Ok(MigrationSourceBatch::StageComplete));
    let mut completed = rewrite();
    completed.complete();
    let done = read_stage_batch(
        &completed.state,
        vec![source(b"a", b"")],
        MigrationRowLimit::Tuned,
        tuning,
    );
    assert_eq!(done, Ok(MigrationSourceBatch::StageComplete));
    let mut meter = BatchMeter::new(MigrationRowLimit::Tuned, tuning);
    assert!(meter.wants_row());
    assert_eq!(meter.weigh(&source(b"a", b"")), Ok(true));
    assert_eq!(meter.source_bytes(), 1);
    assert!(!meter.wants_row());
}

#[test]
fn property_index_scans_refuse_foreign_keys() {
    let own = VectorKeyShape::OutsideVectorKeyspace;
    assert_eq!(check_property_index_row(Some(&[5, 1]), &own, 5), Ok(()));
    assert_eq!(check_property_index_row(Some(&[6]), &VectorKeyShape::Vector, 5), Ok(()));
    assert!(matches!(
        check_property_index_row(None, &own, 5),
        Err(HelixDbError::InvariantViolation(_))
    ));
    assert!(matches!(
        check_property_index_row(Some(&[6]), &own, 5),
        Err(HelixDbError::InvariantViolation(_))
    ));
    let malformed = VectorKeyShape::Malformed("short".to_string());
    assert_eq!(check_property_index_row(Some(&[5, 1]), &malformed, 5), Ok(()));
    assert_eq!(
        config_text(check_property_index_row(Some(&[0xF0, 1]), &malformed, 5)),
        "malformed dedicated vector key during migration: short"
    );
}

#[test]
fn every_stage_has_its_work() {
    let job = rewrite();
    assert_eq!(
        select_work(&job, MigrationRunCatalog::Absent),
        Ok(Some(StageWork::ClearPropertyIndexes))
    );
    let properties = MigrationJob::new(
        MigrationId::LegacyVectorPropertyMaterialization,
        MigrationMode::BlockingStartup,
    );
    assert_eq!(
        select_work(&properties, MigrationRunCatalog::VectorProperties),
        Ok(Some(StageWork::MaterializeNodes))
    );
    assert!(matches!(
        select_work(&properties, MigrationRunCatalog::Absent),
        Err(HelixDbError::InvariantViolation(text))
            if text == "legacy vector-property job has no immutable definition catalog"
    ));
    let mut wrong = rewrite();
    wrong.advance_stage(MigrationStage::LegacyVectorHotRows);
    assert!(matches!(
        select_work(&wrong, MigrationRunCatalog::Absent),
        Err(HelixDbError::InvariantViolation(text))
            if text == "graph rewrite job persisted a vector cleanup stage"
    ));
    let mut completed = rewrite();
    completed.complete();
    assert_eq!(select_work(&completed, MigrationRunCatalog::Absent), Ok(None));
    assert_eq!(
        MigrationId::LegacyVectorPhysicalCleanup.catalog(),
        MigrationRunCatalog::VectorRetirement
    );
}

#[test]
fn stopped_turns_leave_the_interrupted_state() {
    let stopped_at = |failpoint: MigrationFailpoint| {
        let mut stored = rewrite();
        stored.record_advanced(resume(&[1]), 5);
        let mut job = begin_turn(Some(stored)).expect("running jobs go on");
        let mut failpoints = MigrationFailpoints::new();
        inject_migration_failpoint_once(&mut failpoints, failpoint).expect("arms");
        let step =
            apply_batch(&mut job, MigrationBatch::StageComplete, &mut failpoints, &quiet());
        let outcome = step.map_err(|stop| format!("{stop:?}"));
        end_turn(job, outcome)
    };
    let TurnEnd::PersistFailure { job } = stopped_at(MigrationFailpoint::StageTransitionBefore)
    else {
        panic!("a stop before the transition fails the turn");
    };
    assert!(matches!(
        job.state,
        MigrationJobState::Failed {
            stage: MigrationStage::PropertyIndexes,
            resume_after_key: Some(_),
            processed_rows: 5,
            ..
        }
    ));
    let TurnEnd::PersistFailure { job } = stopped_at(MigrationFailpoint::StageTransitionAfter)
    else {
        panic!("a stop behind the transition fails the turn");
    };
    assert!(matches!(
        job.state,
        MigrationJobState::Failed {
            stage: MigrationStage::NodeProperties,
            resume_after_key: None,
            processed_rows: 5,
            ..
        }
    ));
    let TurnEnd::Commit { job, .. } = stopped_at(MigrationFailpoint::BatchCommitAfter) else {
        panic!("a stop behind the commit leaves a committed turn");
    };
    assert_eq!(
        job.state,
        MigrationJobState::Running {
            stage: MigrationStage::NodeProperties,
            resume_after_key: None,
            processed_rows: 5,
        }
    );
}

#[test]
fn turns_commit_or_record_their_failure() {
    let mut failed = rewrite();
    failed.fail("timeout".to_string());
    let mut job = begin_turn(Some(failed)).expect("failed jobs are retried");
    assert!(job.is_runnable());
    let mut failpoints = MigrationFailpoints::new();
    let step = apply_batch(
        &mut job,
        MigrationBatch::Advanced { resume_after_key: resume(&[9]), rows: 3, source_bytes: 40 },
        &mut failpoints,
        &quiet(),
    )
    .expect("batch applies");
    assert_eq!(step, MigrationStep { advanced: true, rows: 3, admitted_bytes: 40 });
    assert_eq!(job.state.processed_rows(), 3);
    let TurnEnd::PersistFailure { job } = end_turn(job, Err("disk full".to_string())) else {
        panic!("a failed turn is recorded");
    };
    assert!(job.is_failed());
    let TurnEnd::PersistFailure { job } = end_turn(rewrite(), Err(String::new())) else {
        panic!("a failed turn is recorded");
    };
    assert!(matches!(
        job.state,
        MigrationJobState::Failed { error, .. }
            if error == "migration failed without an error text"
    ));

    let mut last = rewrite();
    last.advance_stage(MigrationStage::EdgeEndpoints);
    let step =
        apply_batch(&mut last, MigrationBatch::StageComplete, &mut failpoints, &quiet())
            .expect("stage completes");
    let TurnEnd::Commit { publish_graph_ready, job, .. } = end_turn(last, Ok(step)) else {
        panic!("a finished turn commits");
    };
    assert!(publish_graph_ready && job.is_completed());
    assert!(begin_turn(Some(job)).is_none());
    assert!(begin_turn(None).is_none());
    assert_eq!(MigrationStep::idle(), MigrationStep { advanced: false, rows: 0, admitted_bytes: 0 });
    assert_eq!(
        boundaries_before_commit(true),
        vec![MigrationFailpoint::RewriteCompletionBefore, MigrationFailpoint::BatchCommitBefore]
    );
    assert_eq!(boundaries_after_commit(false), vec![MigrationFailpoint::BatchCommitAfter]);
}

#[test]
fn failures_always_have_a_text() {
    let mut job = rewrite();
    job.record_advanced(resume(&[4]), 9);
    job.fail(String::new());
    assert_eq!(
        job.state,
        MigrationJobState::Failed {
            stage: MigrationStage::PropertyIndexes,
            resume_after_key: Some(resume(&[4])),
            processed_rows: 9,
            error: "migration failed without an error text".to_string(),
        }
    );
    job.retry();
    job.fail("disk full".to_string());
    assert!(matches!(job.state, MigrationJobState::Failed { error, .. } if error == "disk full"));
}

#[test]
fn cleanup_in_another_graph_stage_ends_at_once() {
    let mut job = MigrationJob::new(MigrationId::GraphFormatV1Cleanup, MigrationMode::Background);
    job.state = MigrationJobState::Running {
        stage: MigrationStage::EdgeEndpoints,
        resume_after_key: None,
        processed_rows: 17,
    };
    let work = select_work(&job, MigrationRunCatalog::Absent)
        .expect("the stage is a graph stage")
        .expect("the job is running");
    assert_eq!(work, StageWork::Exhausted);
    assert_eq!(StageWork::DeleteLegacyEdgePairs.settled(), None);
    let batch = work.settled().expect("the work needs no rows");
    assert_eq!(batch, MigrationBatch::StageComplete);
    let step = apply_batch(&mut job, batch, &mut MigrationFailpoints::new(), &quiet())
        .expect("the stage completes");
    assert_eq!(step, MigrationStep { advanced: true, rows: 0, admitted_bytes: 0 });
    assert_eq!(job.state, MigrationJobState::Completed { processed_rows: 17 });
    assert_eq!(job.id, MigrationId::GraphFormatV1Cleanup);
}

#[test]
fn stage_transitions_can_be_aborted_by_the_environment() {
    let environment = FailpointEnvironment {
        failpoint: Some("stage_transition_after".to_string()),
        action: Some("abort".to_string()),
    };
    let mut failpoints = MigrationFailpoints::new();
    let mut job = rewrite();
    let outcome =
        apply_batch(&mut job, MigrationBatch::StageComplete, &mut failpoints, &environment);
    assert_eq!(outcome, Err(FailpointOutcome::Abort));
    assert!(!migration_failpoint_was_triggered(&failpoints));
    assert_eq!(job.state.running_stage(), Some(MigrationStage::NodeProperties));
}

#[test]
fn failpoints_have_a_json_form() {
    for failpoint in MigrationFailpoint::all() {
        let bytes = failpoint.to_json().expect("names encode");
        assert_eq!(bytes, format!("\"{}\"", failpoint.as_str()).into_bytes());
        assert_eq!(MigrationFailpoint::from_json(&bytes), Some(failpoint));
    }
    assert_eq!(
        MigrationFailpoint::BatchReadBefore.to_json(),
        Ok(b"\"batch_read_before\"".to_vec())
    );
    assert_eq!(MigrationFailpoint::from_json(b"\"no_boundary\""), None);
    assert_eq!(MigrationFailpoint::from_json(b"{"), None);
    assert_eq!(MigrationFailpoint::from_json(b"7"), None);
}

#[test]
fn stage_transitions_can_be_interrupted_on_either_side() {
    for (failpoint, moved) in [
        (MigrationFailpoint::StageTransitionBefore, false),
        (MigrationFailpoint::StageTransitionAfter, true),
    ] {
        let mut failpoints = MigrationFailpoints::new();
        inject_migration_failpoint_once(&mut failpoints, failpoint).expect("failpoint arms");
        let mut job = rewrite();
        let outcome =
            apply_batch(&mut job, MigrationBatch::StageComplete, &mut failpoints, &quiet())
                .expect_err("the boundary stops the turn");
        assert!(matches!(outcome, FailpointOutcome::Fail(_)));
        assert!(migration_failpoint_was_triggered(&failpoints));
        let expected = if moved {
            MigrationStage::NodeProperties
        } else {
            MigrationStage::PropertyIndexes
        };
        assert_eq!(job.state.running_stage(), Some(expected));
    }
}

#[test]
fn failpoints_are_named_and_fire_once() {
    let all = MigrationFailpoint::all();
    assert_eq!(all.len(), 42);
    for failpoint in &all {
        assert_eq!(MigrationFailpoint::parse(failpoint.as_str()), Some(*failpoint));
    }
    assert_eq!(MigrationFailpoint::parse("no-boundary"), None);
    let mut failpoints = MigrationFailpoints::new();
    let boundary = MigrationFailpoint::BatchCommitAfter;
    inject_migration_failpoint_once(&mut failpoints, boundary).expect("failpoint arms");
    assert_eq!(
        trip_migration_failpoint(&mut failpoints, MigrationFailpoint::BatchReadBefore, &quiet()),
        FailpointOutcome::Pass
    );
    assert!(!migration_failpoint_was_triggered(&failpoints));
    assert!(matches!(
        trip_migration_failpoint(&mut failpoints, boundary, &quiet()),
        FailpointOutcome::Fail(_)
    ));
    assert!(migration_failpoint_was_triggered(&failpoints));
    assert_eq!(
        trip_migration_failpoint(&mut failpoints, boundary, &quiet()),
        FailpointOutcome::Pass
    );
    let aborting = FailpointEnvironment {
        failpoint: Some(boundary.as_str().to_string()),
        action: Some("abort".to_string()),
    };
    assert_eq!(
        trip_migration_failpoint(&mut failpoints, boundary, &aborting),
        FailpointOutcome::Abort
    );
    let erring = FailpointEnvironment {
        failpoint: Some(boundary.as_str().to_string()),
        action: Some("error".to_string()),
    };
    assert!(matches!(
        trip_migration_failpoint(&mut failpoints, boundary, &erring),
        FailpointOutcome::Fail(_)
    ));
}

#[test]
fn background_jobs_are_picked_in_scan_order() {
    let mut failed =
        MigrationJob::new(MigrationId::GraphFormatV1Cleanup, MigrationMode::Background);
    failed.fail("later".to_string());
    assert_eq!(
        next_background_job(&vec![rewrite(), failed]),
        Some(MigrationId::GraphFormatV1Cleanup)
    );
    let mut done = MigrationJob::new(MigrationId::GraphFormatV1Cleanup, MigrationMode::Background);
    done.complete();
    assert_eq!(next_background_job(&vec![rewrite(), done]), None);
}

#[test]
fn parity_reports_are_ordered_and_complete() {
    let mut failed = rewrite();
    failed.record_advanced(resume(&[1]), 4);
    failed.fail("lost lease".to_string());
    let mut done = MigrationJob::new(MigrationId::GraphFormatV1Cleanup, MigrationMode::Background);
    done.complete();
    let directory = MigrationParityJobStatus {
        id: MigrationParityId::VectorSimHashDirectoryV1,
        mode: MigrationParityMode::BlockingStartup,
        state: MigrationParityState::Running {
            stage: MigrationParityStage::VectorDirectoryVerify,
            processed_rows: 2,
            has_resume_key: false,
        },
    };
    let statuses = migration_parity_job_statuses(&vec![done, failed], Some(directory));
    assert_eq!(statuses.len(), 3);
    assert_eq!(statuses[0].id, MigrationParityId::GraphFormatV1Rewrite);
    assert_eq!(
        statuses[0].state,
        MigrationParityState::Failed {
            stage: MigrationParityStage::PropertyIndexes,
            processed_rows: 4,
            has_resume_key: true,
            error: "lost lease".to_string(),
        }
    );
    assert_eq!(statuses[1].id, MigrationParityId::GraphFormatV1Cleanup);
    assert!(statuses[1].state.is_completed());
    assert_eq!(statuses[2].id, MigrationParityId::VectorSimHashDirectoryV1);
    assert_eq!(statuses[2].state.processed_rows(), 2);
    assert_eq!(
        parity_state(&MigrationJobState::Completed { processed_rows: 8 }),
        MigrationParityState::Completed { processed_rows: 8 }
    );
}

#[test]
fn interrupted_jobs_keep_a_recoverable_checkpoint() {
    let recovery = VectorRecoveryStage::RetireHotRows;
    assert_eq!(recovery.name(), "retire-hot-rows");
    assert_eq!(recovery.stage_rank(MigrationStage::LegacyVectorHotRows), Some(1));
    assert_eq!(recovery.stage_rank(MigrationStage::EdgeEndpoints), None);
    let positioned = || {
        let mut job = MigrationJob::new(recovery.migration_id(), MigrationMode::BlockingStartup);
        job.advance_stage(recovery.migration_stage());
        job
    };
    let mut failed = positioned();
    failed.fail("injected".to_string());
    assert!(recovery_checkpoint_holds(
        recovery,
        MigrationFailpoint::BatchReadBefore,
        &positioned(),
        &failed
    ));
    let mut moved = positioned();
    advance_or_complete(&mut moved);
    assert!(recovery_checkpoint_holds(
        recovery,
        MigrationFailpoint::StageTransitionAfter,
        &positioned(),
        &moved
    ));
    assert!(!recovery_checkpoint_holds(
        recovery,
        MigrationFailpoint::BatchReadBefore,
        &positioned(),
        &moved
    ));
    assert!(!recovery_checkpoint_holds(
        recovery,
        MigrationFailpoint::BatchReadBefore,
        &rewrite(),
        &failed
    ));
}

#[test]
fn every_boundary_is_recovered_at_every_vector_stage() {
    let cases = recovery_cases();
    assert_eq!(cases.len(), 64);
    for (recovery, failpoint) in cases {
        let before = {
            let mut job =
                MigrationJob::new(recovery.migration_id(), MigrationMode::BlockingStartup);
            job.advance_stage(recovery.migration_stage());
            job
        };
        let mut after = {
            let mut job =
                MigrationJob::new(recovery.migration_id(), MigrationMode::BlockingStartup);
            job.advance_stage(recovery.migration_stage());
            job
        };
        match failpoint {
            MigrationFailpoint::StageTransitionAfter => advance_or_complete(&mut after),
            MigrationFailpoint::BatchCommitAfter => after.record_advanced(resume(&[1]), 1),
            _ => after.fail("injected".to_string()),
        }
        assert!(recovery_checkpoint_holds(recovery, failpoint, &before, &after));
    }
}
