//! Durable migration jobs and the stages they walk through.
use vstd::prelude::*;

verus! {

/// Durable migration identifier.
#[derive(Debug, Clone, Copy, PartialEq, Eq, Structural, Hash)]
pub enum MigrationId {
    /// Rewrite legacy graph rows and rebuild current-format indexes.
    GraphFormatV1Rewrite,
    /// Restore vector properties removed from legacy graph rows.
    LegacyVectorPropertyMaterialization,
    /// Delete legacy-only vector namespaces after exact activation.
    LegacyVectorPhysicalCleanup,
    /// Remove obsolete legacy graph rows after the rewrite is durable.
    GraphFormatV1Cleanup,
}

/// Migration execution mode.
#[derive(Debug, Clone, Copy, PartialEq, Eq, Structural, Hash)]
pub enum MigrationMode {
    /// Must finish before startup completes.
    BlockingStartup,
    /// May run while the writer is open.
    Background,
}

/// Source keyspace stage for resumable scans.
#[derive(Debug, Clone, Copy, PartialEq, Eq, Structural, Hash)]
pub enum MigrationStage {
    /// Obsolete non-vector secondary and label index rows.
    PropertyIndexes,
    /// Existing node property rows.
    NodeProperties,
    /// Legacy pair-addressed edge property rows.
    LegacyEdgePairs,
    /// Current edge endpoint rows.
    EdgeEndpoints,
    /// Legacy vector reservations transitioning into migration ownership.
    FenceLegacyVectorSources,
    /// Dedicated hot-lane rows owned by fenced legacy sources.
    LegacyVectorHotRows,
    /// Dedicated layer-zero rows owned by fenced legacy sources.
    LegacyVectorLayer0Rows,
    /// Core metadata and transaction guards owned by fenced legacy sources.
    LegacyVectorCoreRows,
    /// Legacy vector definition rows whose exact generations are active.
    LegacyVectorDefinitions,
    /// Empty fenced reservations ready for release.
    ReleaseLegacyVectorReservations,
}

/// Keyspace that a stage scans.
#[derive(Debug, Clone, Copy, PartialEq, Eq, Structural)]
pub enum StageKeyspace {
    /// Property index rows of the scope.
    PropertyIndex,
    /// Node property rows of the scope.
    NodeProperty,
    /// Pair-addressed edge property rows of the scope.
    EdgePropertyPair,
    /// Edge endpoint rows of the scope.
    EdgeEndpoints,
    /// Reservations of legacy vector namespaces, outside any scope.
    VectorReservations,
    /// Hot vector lane of the scope.
    HotVectorLane,
    /// Layer-zero vector lane of the scope.
    Layer0VectorLane,
    /// Legacy dynamic index catalog of the scope.
    DynamicIndexCatalog,
}

proof fn lemma_stage_after(id: MigrationId, position: int)
    requires
        0 <= position < id.stages().len(),
    ensures
        id.stages().contains(id.stages()[position]),
        position + 1 < id.stages().len() ==> id.stage_after(id.stages()[position]) == Some(
            id.stages()[position + 1],
        ),
        position + 1 == id.stages().len() ==> id.stage_after(id.stages()[position]) is None,
{
    let order = id.stages();
    let found = order.index_of(order[position]);
    assert(order.contains(order[position]));
    assert(0 <= found < order.len() && order[found] == order[position]);
    assert(found == position);
}

impl MigrationId {
    /// The stages of a migration, in the order in which they run.
    pub open spec fn stages(self) -> Seq<MigrationStage> {
        match self {
            MigrationId::GraphFormatV1Rewrite => seq![
                MigrationStage::PropertyIndexes,
                MigrationStage::NodeProperties,
                MigrationStage::LegacyEdgePairs,
                MigrationStage::EdgeEndpoints,
            ],
            MigrationId::LegacyVectorPropertyMaterialization => seq![
                MigrationStage::NodeProperties,
                MigrationStage::EdgeEndpoints,
            ],
            MigrationId::LegacyVectorPhysicalCleanup => seq![
                MigrationStage::FenceLegacyVectorSources,
                MigrationStage::LegacyVectorHotRows,
                MigrationStage::LegacyVectorLayer0Rows,
                MigrationStage::LegacyVectorCoreRows,
                MigrationStage::LegacyVectorDefinitions,
                MigrationStage::ReleaseLegacyVectorReservations,
            ],
            MigrationId::GraphFormatV1Cleanup => seq![MigrationStage::LegacyEdgePairs],
        }
    }

    /// Whether a job of this migration may be found at this stage.
    ///
    /// The graph cleanup job has one stage of its own and tolerates the other
    /// graph stages, at which it has nothing to do.
    pub open spec fn allows(self, stage: MigrationStage) -> bool {
        ||| self.stages().contains(stage)
        ||| self is GraphFormatV1Cleanup && stage.is_graph_stage()
    }

    /// The stage that follows, or nothing after the last one.
    pub open spec fn stage_after(self, stage: MigrationStage) -> Option<MigrationStage> {
        let order = self.stages();
        let position = order.index_of(stage);
        if order.contains(stage) && position + 1 < order.len() {
            Some(order[position + 1])
        } else {
            None
        }
    }

    /// Stable name of the migration.
    pub open spec fn name(self) -> Seq<char> {
        match self {
            MigrationId::GraphFormatV1Rewrite => "graph_format_v1_rewrite"@,
            MigrationId::LegacyVectorPropertyMaterialization =>
                "legacy_vector_property_materialization"@,
            MigrationId::LegacyVectorPhysicalCleanup => "legacy_vector_physical_cleanup"@,
            MigrationId::GraphFormatV1Cleanup => "graph_format_v1_cleanup"@,
        }
    }

    /// Name of the migration in diagnostics.
    pub fn log_name(self) -> (name: &'static str)
        ensures
            name@ == self.name(),
    {
        match self {
            MigrationId::GraphFormatV1Rewrite => "graph_format_v1_rewrite",
            MigrationId::LegacyVectorPropertyMaterialization =>
                "legacy_vector_property_materialization",
            MigrationId::LegacyVectorPhysicalCleanup => "legacy_vector_physical_cleanup",
            MigrationId::GraphFormatV1Cleanup => "graph_format_v1_cleanup",
        }
    }

    /// Bytes that name the migration in its job key.
    pub fn storage_name(self) -> (name: &'static [u8])
        ensures
            name@ == vstd::utf8::encode_utf8(self.name()),
    {
        match self {
            MigrationId::GraphFormatV1Rewrite => "graph_format_v1_rewrite".as_bytes(),
            MigrationId::LegacyVectorPropertyMaterialization =>
                "legacy_vector_property_materialization".as_bytes(),
            MigrationId::LegacyVectorPhysicalCleanup => "legacy_vector_physical_cleanup".as_bytes(),
            MigrationId::GraphFormatV1Cleanup => "graph_format_v1_cleanup".as_bytes(),
        }
    }

    /// First stage of the migration.
    pub fn initial_stage(self) -> (stage: MigrationStage)
        ensures
            stage == self.stages()[0],
    {
        match self {
            MigrationId::GraphFormatV1Rewrite => MigrationStage::PropertyIndexes,
            MigrationId::LegacyVectorPropertyMaterialization => MigrationStage::NodeProperties,
            MigrationId::LegacyVectorPhysicalCleanup => MigrationStage::FenceLegacyVectorSources,
            MigrationId::GraphFormatV1Cleanup => MigrationStage::LegacyEdgePairs,
        }
    }
}

impl MigrationMode {
    /// Stable name of the mode.
    pub open spec fn name(self) -> Seq<char> {
        match self {
            MigrationMode::BlockingStartup => "blocking_startup"@,
            MigrationMode::Background => "background"@,
        }
    }

    /// Name of the mode in diagnostics.
    pub fn log_name(self) -> (name: &'static str)
        ensures
            name@ == self.name(),
    {
        match self {
            MigrationMode::BlockingStartup => "blocking_startup",
            MigrationMode::Background => "background",
        }
    }
}

impl MigrationStage {
    /// Whether a stage scans graph rows rather than legacy vector storage.
    pub open spec fn is_graph_stage(self) -> bool {
        ||| self is PropertyIndexes
        ||| self is NodeProperties
        ||| self is LegacyEdgePairs
        ||| self is EdgeEndpoints
    }

    /// Stable name of the stage.
    pub open spec fn name(self) -> Seq<char> {
        match self {
            MigrationStage::PropertyIndexes => "property_indexes"@,
            MigrationStage::NodeProperties => "node_properties"@,
            MigrationStage::LegacyEdgePairs => "legacy_edge_pairs"@,
            MigrationStage::EdgeEndpoints => "edge_endpoints"@,
            MigrationStage::FenceLegacyVectorSources => "fence_legacy_vector_sources"@,
            MigrationStage::LegacyVectorHotRows => "legacy_vector_hot_rows"@,
            MigrationStage::LegacyVectorLayer0Rows => "legacy_vector_layer_zero_rows"@,
            MigrationStage::LegacyVectorCoreRows => "legacy_vector_core_rows"@,
            MigrationStage::LegacyVectorDefinitions => "legacy_vector_definitions"@,
            MigrationStage::ReleaseLegacyVectorReservations =>
                "release_legacy_vector_reservations"@,
        }
    }

    /// Name of the stage in diagnostics.
    pub fn log_name(self) -> (name: &'static str)
        ensures
            name@ == self.name(),
    {
        match self {
            MigrationStage::PropertyIndexes => "property_indexes",
            MigrationStage::NodeProperties => "node_properties",
            MigrationStage::LegacyEdgePairs => "legacy_edge_pairs",
            MigrationStage::EdgeEndpoints => "edge_endpoints",
            MigrationStage::FenceLegacyVectorSources => "fence_legacy_vector_sources",
            MigrationStage::LegacyVectorHotRows => "legacy_vector_hot_rows",
            MigrationStage::LegacyVectorLayer0Rows => "legacy_vector_layer_zero_rows",
            MigrationStage::LegacyVectorCoreRows => "legacy_vector_core_rows",
            MigrationStage::LegacyVectorDefinitions => "legacy_vector_definitions",
            MigrationStage::ReleaseLegacyVectorReservations =>
                "release_legacy_vector_reservations",
        }
    }

    /// The keyspace that a stage scans.
    pub open spec fn keyspace_spec(self) -> StageKeyspace {
        match self {
            MigrationStage::PropertyIndexes => StageKeyspace::PropertyIndex,
            MigrationStage::NodeProperties => StageKeyspace::NodeProperty,
            MigrationStage::LegacyEdgePairs => StageKeyspace::EdgePropertyPair,
            MigrationStage::EdgeEndpoints => StageKeyspace::EdgeEndpoints,
            MigrationStage::FenceLegacyVectorSources
            | MigrationStage::LegacyVectorCoreRows
            | MigrationStage::ReleaseLegacyVectorReservations => StageKeyspace::VectorReservations,
            MigrationStage::LegacyVectorHotRows => StageKeyspace::HotVectorLane,
            MigrationStage::LegacyVectorLayer0Rows => StageKeyspace::Layer0VectorLane,
            MigrationStage::LegacyVectorDefinitions => StageKeyspace::DynamicIndexCatalog,
        }
    }

    /// Selects the keyspace that a stage scans.
    pub fn keyspace(self) -> (keyspace: StageKeyspace)
        ensures
            keyspace == self.keyspace_spec(),
    {
        match self {
            MigrationStage::PropertyIndexes => StageKeyspace::PropertyIndex,
            MigrationStage::NodeProperties => StageKeyspace::NodeProperty,
            MigrationStage::LegacyEdgePairs => StageKeyspace::EdgePropertyPair,
            MigrationStage::EdgeEndpoints => StageKeyspace::EdgeEndpoints,
            MigrationStage::FenceLegacyVectorSources
            | MigrationStage::LegacyVectorCoreRows
            | MigrationStage::ReleaseLegacyVectorReservations => StageKeyspace::VectorReservations,
            MigrationStage::LegacyVectorHotRows => StageKeyspace::HotVectorLane,
            MigrationStage::LegacyVectorLayer0Rows => StageKeyspace::Layer0VectorLane,
            MigrationStage::LegacyVectorDefinitions => StageKeyspace::DynamicIndexCatalog,
        }
    }
}

/// Non-empty physical storage key used as a resume point.
#[derive(Debug, PartialEq, Eq, Hash)]
pub struct MigrationResumeKey(Vec<u8>);

impl View for MigrationResumeKey {
    type V = Seq<u8>;

    closed spec fn view(&self) -> Seq<u8> {
        self.0@
    }
}

impl MigrationResumeKey {
    #[verifier::type_invariant]
    spec fn is_not_empty(self) -> bool {
        self.0@.len() > 0
    }

    /// Wraps a physical key; an empty one is no resume point.
    pub fn new(bytes: Vec<u8>) -> (key: Option<Self>)
        ensures
            key is Some <==> bytes@.len() > 0,
            key matches Some(key) ==> key@ == bytes@,
    {
        if bytes.is_empty() {
            None
        } else {
            Some(Self(bytes))
        }
    }

    /// Wraps a physical key or says why it is no resume point.
    pub fn try_from_bytes(bytes: Vec<u8>) -> (key: Result<Self, &'static str>)
        ensures
            key is Ok <==> bytes@.len() > 0,
            key matches Ok(key) ==> key@ == bytes@,
            key matches Err(message) ==> message@ == "migration resume key cannot be empty"@,
    {
        match Self::new(bytes) {
            Some(key) => Ok(key),
            None => Err("migration resume key cannot be empty"),
        }
    }

    /// The physical key.
    pub fn as_bytes(&self) -> (bytes: &[u8])
        ensures
            bytes@ == self@,
            bytes@.len() > 0,
    {
        proof {
            use_type_invariant(self);
        }
        self.0.as_slice()
    }

    /// Gives the physical key back.
    pub fn into_bytes(self) -> (bytes: Vec<u8>)
        ensures
            bytes@ == self@,
            bytes@.len() > 0,
    {
        proof {
            use_type_invariant(&self);
        }
        self.0
    }
}

impl Clone for MigrationResumeKey {
    fn clone(&self) -> (copy: Self)
        ensures
            copy@ == self@,
    {
        proof {
            use_type_invariant(self);
        }
        let bytes = self.0.clone();
        assert(bytes@ =~= self.0@);
        Self(bytes)
    }
}

/// A resume point as a mathematical value.
pub open spec fn resume_view(key: Option<MigrationResumeKey>) -> Option<Seq<u8>> {
    match key {
        Some(key) => Some(key@),
        None => None,
    }
}

fn resume_copy(key: &Option<MigrationResumeKey>) -> (copy: Option<MigrationResumeKey>)
    ensures
        resume_view(copy) == resume_view(*key),
{
    match key {
        Some(key) => Some(key.clone()),
        None => None,
    }
}

/// Durable migration lifecycle.
#[derive(Debug, PartialEq, Eq)]
pub enum MigrationJobState {
    /// Scanning source rows.
    Running {
        /// Current source keyspace stage.
        stage: MigrationStage,
        /// Last committed physical key in the current stage.
        resume_after_key: Option<MigrationResumeKey>,
        /// Rows processed across all stages.
        processed_rows: u64,
    },
    /// Migration finished successfully.
    Completed {
        /// Rows processed across all stages.
        processed_rows: u64,
    },
    /// Inspectable failure that may be retried from its durable resume key.
    Failed {
        /// Stage that failed.
        stage: MigrationStage,
        /// Last committed physical key in the failed stage.
        resume_after_key: Option<MigrationResumeKey>,
        /// Rows processed before failure.
        processed_rows: u64,
        /// Non-empty error text.
        error: String,
    },
}

/// A job state as a mathematical value.
#[verifier::ext_equal]
pub enum JobState {
    Running { stage: MigrationStage, resume_after_key: Option<Seq<u8>>, processed_rows: u64 },
    Completed { processed_rows: u64 },
    Failed {
        stage: MigrationStage,
        resume_after_key: Option<Seq<u8>>,
        processed_rows: u64,
        error: Seq<char>,
    },
}

impl View for MigrationJobState {
    type V = JobState;

    open spec fn view(&self) -> JobState {
        match self {
            MigrationJobState::Running { stage, resume_after_key, processed_rows } =>
                JobState::Running {
                    stage: *stage,
                    resume_after_key: resume_view(*resume_after_key),
                    processed_rows: *processed_rows,
                },
            MigrationJobState::Completed { processed_rows } => JobState::Completed {
                processed_rows: *processed_rows,
            },
            MigrationJobState::Failed { stage, resume_after_key, processed_rows, error } =>
                JobState::Failed {
                    stage: *stage,
                    resume_after_key: resume_view(*resume_after_key),
                    processed_rows: *processed_rows,
                    error: error@,
                },
        }
    }
}

impl JobState {
    /// The state of a job that has just been created.
    pub open spec fn initial(id: MigrationId) -> JobState {
        JobState::Running { stage: id.stages()[0], resume_after_key: None, processed_rows: 0 }
    }

    /// The stage of a running job.
    pub open spec fn running_stage(self) -> Option<MigrationStage> {
        match self {
            JobState::Running { stage, .. } => Some(stage),
            _ => None,
        }
    }

    /// Rows processed so far.
    pub open spec fn rows(self) -> u64 {
        match self {
            JobState::Running { processed_rows, .. } => processed_rows,
            JobState::Completed { processed_rows } => processed_rows,
            JobState::Failed { processed_rows, .. } => processed_rows,
        }
    }

    /// The state after a batch that ended at `key`; only a running job takes one.
    pub open spec fn advanced(self, key: Seq<u8>, rows: u64) -> JobState {
        match self {
            JobState::Running { stage, processed_rows, .. } => JobState::Running {
                stage,
                resume_after_key: Some(key),
                processed_rows: if processed_rows + rows > u64::MAX {
                    u64::MAX
                } else {
                    (processed_rows + rows) as u64
                },
            },
            _ => self,
        }
    }

    /// The state after a stage is exhausted; only a running job moves on.
    pub open spec fn stage_finished(self, id: MigrationId) -> JobState {
        match self {
            JobState::Running { stage, processed_rows, .. } => match id.stage_after(stage) {
                Some(next) => JobState::Running {
                    stage: next,
                    resume_after_key: None,
                    processed_rows,
                },
                None => JobState::Completed { processed_rows },
            },
            _ => self,
        }
    }

    /// The state after a failure; only a running job fails.
    pub open spec fn failed(self, error: Seq<char>) -> JobState {
        match self {
            JobState::Running { stage, resume_after_key, processed_rows } => JobState::Failed {
                stage,
                resume_after_key,
                processed_rows,
                error,
            },
            _ => self,
        }
    }

    /// The state after a retry; only a failed job is taken up again.
    pub open spec fn retried(self) -> JobState {
        match self {
            JobState::Failed { stage, resume_after_key, processed_rows, .. } => JobState::Running {
                stage,
                resume_after_key,
                processed_rows,
            },
            _ => self,
        }
    }

    /// Whether a running or failed job stands at a stage of its migration.
    pub open spec fn is_legal(self, id: MigrationId) -> bool {
        match self {
            JobState::Running { stage, .. } => id.allows(stage),
            JobState::Failed { stage, .. } => id.allows(stage),
            JobState::Completed { .. } => true,
        }
    }
}

/// The text that is recorded of a failure: its own, or a fixed one where it has none.
pub open spec fn shown_error(error: Seq<char>) -> Seq<char> {
    if error.len() == 0 {
        "migration failed without an error text"@
    } else {
        error
    }
}

impl MigrationJobState {
    /// The stage of a running job.
    pub fn running_stage(&self) -> (stage: Option<MigrationStage>)
        ensures
            stage == self@.running_stage(),
    {
        match self {
            MigrationJobState::Running { stage, .. } => Some(*stage),
            _ => None,
        }
    }

    /// Rows processed so far.
    pub fn processed_rows(&self) -> (rows: u64)
        ensures
            rows == self@.rows(),
    {
        match self {
            MigrationJobState::Running { processed_rows, .. } => *processed_rows,
            MigrationJobState::Completed { processed_rows } => *processed_rows,
            MigrationJobState::Failed { processed_rows, .. } => *processed_rows,
        }
    }

    /// Name of the state in diagnostics.
    pub fn log_name(&self) -> (name: &'static str)
        ensures
            self@ is Running ==> name@ == "running"@,
            self@ is Completed ==> name@ == "completed"@,
            self@ is Failed ==> name@ == "failed"@,
    {
        match self {
            MigrationJobState::Running { .. } => "running",
            MigrationJobState::Completed { .. } => "completed",
            MigrationJobState::Failed { .. } => "failed",
        }
    }

    /// Whether the job failed.
    pub fn is_failed(&self) -> (failed: bool)
        ensures
            failed == (self@ is Failed),
    {
        matches!(self, MigrationJobState::Failed { .. })
    }
}

/// Persisted migration job.
#[derive(Debug, PartialEq, Eq)]
pub struct MigrationJob {
    /// Migration identity.
    pub id: MigrationId,
    /// Execution mode.
    pub mode: MigrationMode,
    /// Durable lifecycle state.
    pub state: MigrationJobState,
}

impl MigrationJob {
    /// A job that has not processed anything yet.
    pub fn new(id: MigrationId, mode: MigrationMode) -> (job: Self)
        ensures
            job.id == id,
            job.mode == mode,
            job.state@ == JobState::initial(id),
    {
        MigrationJob {
            id,
            mode,
            state: MigrationJobState::Running {
                stage: id.initial_stage(),
                resume_after_key: None,
                processed_rows: 0,
            },
        }
    }

    /// Whether the job can take a batch.
    pub fn is_runnable(&self) -> (runnable: bool)
        ensures
            runnable == (self.state@ is Running),
    {
        matches!(self.state, MigrationJobState::Running { .. })
    }

    /// Whether the job finished.
    pub fn is_completed(&self) -> (completed: bool)
        ensures
            completed == (self.state@ is Completed),
    {
        matches!(self.state, MigrationJobState::Completed { .. })
    }

    /// Whether the job failed.
    pub fn is_failed(&self) -> (failed: bool)
        ensures
            failed == (self.state@ is Failed),
    {
        self.state.is_failed()
    }

    /// Records a batch that ended at `resume_after_key`.
    pub fn record_advanced(&mut self, resume_after_key: MigrationResumeKey, rows: u64)
        ensures
            final(self).id == old(self).id,
            final(self).mode == old(self).mode,
            final(self).state@ == old(self).state@.advanced(resume_after_key@, rows),
    {
        let (stage, processed_rows) = match &self.state {
            MigrationJobState::Running { stage, processed_rows, .. } => (*stage, *processed_rows),
            _ => return,
        };
        self.state = MigrationJobState::Running {
            stage,
            resume_after_key: Some(resume_after_key),
            processed_rows: processed_rows.saturating_add(rows),
        };
    }

    /// Enters another stage at its beginning.
    pub fn advance_stage(&mut self, next_stage: MigrationStage)
        ensures
            final(self).id == old(self).id,
            final(self).mode == old(self).mode,
            final(self).state@ == (JobState::Running {
                stage: next_stage,
                resume_after_key: None,
                processed_rows: old(self).state@.rows(),
            }),
    {
        let processed_rows: u64 = self.state.processed_rows();
        self.state = MigrationJobState::Running {
            stage: next_stage,
            resume_after_key: None,
            processed_rows,
        };
    }

    /// Finishes the job and keeps its row count.
    pub fn complete(&mut self)
        ensures
            final(self).id == old(self).id,
            final(self).mode == old(self).mode,
            final(self).state@ == (JobState::Completed { processed_rows: old(self).state@.rows() }),
    {
        let processed_rows: u64 = self.state.processed_rows();
        self.state = MigrationJobState::Completed { processed_rows };
    }

    /// Records a failure at the last durable resume point, never without a text.
    pub fn fail(&mut self, error: String)
        ensures
            final(self).id == old(self).id,
            final(self).mode == old(self).mode,
            final(self).state@ == old(self).state@.failed(shown_error(error@)),
    {
        let error = if error.as_str().is_empty() {
            "migration failed without an error text".to_owned()
        } else {
            error
        };
        let (stage, resume_after_key, processed_rows) = match &self.state {
            MigrationJobState::Running { stage, resume_after_key, processed_rows } => (
                *stage,
                resume_copy(resume_after_key),
                *processed_rows,
            ),
            _ => return,
        };
        self.state = MigrationJobState::Failed { stage, resume_after_key, processed_rows, error };
    }

    /// Takes a failed job up again at its last durable resume point.
    pub fn retry(&mut self)
        ensures
            final(self).id == old(self).id,
            final(self).mode == old(self).mode,
            final(self).state@ == old(self).state@.retried(),
    {
        let (stage, resume_after_key, processed_rows) = match &self.state {
            MigrationJobState::Failed { stage, resume_after_key, processed_rows, .. } => (
                *stage,
                resume_copy(resume_after_key),
                *processed_rows,
            ),
            _ => return,
        };
        self.state = MigrationJobState::Running { stage, resume_after_key, processed_rows };
    }
}

/// Moves a job whose stage is exhausted to the next one, or finishes it.
pub fn advance_or_complete(job: &mut MigrationJob)
    requires
        old(job).state@.running_stage() matches Some(stage) ==> old(job).id.allows(stage),
    ensures
        final(job).id == old(job).id,
        final(job).mode == old(job).mode,
        final(job).state@ == old(job).state@.stage_finished(old(job).id),
{
    let stage = match job.state.running_stage() {
        Some(stage) => stage,
        None => return,
    };
    proof {
        let order = job.id.stages();
        if order.contains(stage) {
            lemma_stage_after(job.id, order.index_of(stage));
        }
        assert forall|position: int| 0 <= position < order.len() && #[trigger] order[position]
            == stage implies job.id.stage_after(stage) == (if position + 1 < order.len() {
            Some(order[position + 1])
        } else {
            None
        }) by {
            lemma_stage_after(job.id, position);
        }
    }
    match (job.id, stage) {
        (MigrationId::GraphFormatV1Rewrite, MigrationStage::PropertyIndexes) => {
            assert(job.id.stages()[0] == stage);
            job.advance_stage(MigrationStage::NodeProperties)
        },
        (MigrationId::GraphFormatV1Rewrite, MigrationStage::NodeProperties) => {
            assert(job.id.stages()[1] == stage);
            job.advance_stage(MigrationStage::LegacyEdgePairs)
        },
        (MigrationId::GraphFormatV1Rewrite, MigrationStage::LegacyEdgePairs) => {
            assert(job.id.stages()[2] == stage);
            job.advance_stage(MigrationStage::EdgeEndpoints)
        },
        (MigrationId::GraphFormatV1Rewrite, _) => {
            assert(job.id.stages()[3] == stage);
            job.complete()
        },
        (
            MigrationId::LegacyVectorPropertyMaterialization,
            MigrationStage::NodeProperties,
        ) => {
            assert(job.id.stages()[0] == stage);
            job.advance_stage(MigrationStage::EdgeEndpoints)
        },
        (MigrationId::LegacyVectorPropertyMaterialization, _) => {
            assert(job.id.stages()[1] == stage);
            job.complete()
        },
        (
            MigrationId::LegacyVectorPhysicalCleanup,
            MigrationStage::FenceLegacyVectorSources,
        ) => {
            assert(job.id.stages()[0] == stage);
            job.advance_stage(MigrationStage::LegacyVectorHotRows)
        },
        (MigrationId::LegacyVectorPhysicalCleanup, MigrationStage::LegacyVectorHotRows) => {
            assert(job.id.stages()[1] == stage);
            job.advance_stage(MigrationStage::LegacyVectorLayer0Rows)
        },
        (MigrationId::LegacyVectorPhysicalCleanup, MigrationStage::LegacyVectorLayer0Rows) => {
            assert(job.id.stages()[2] == stage);
            job.advance_stage(MigrationStage::LegacyVectorCoreRows)
        },
        (MigrationId::LegacyVectorPhysicalCleanup, MigrationStage::LegacyVectorCoreRows) => {
            assert(job.id.stages()[3] == stage);
            job.advance_stage(MigrationStage::LegacyVectorDefinitions)
        },
        (MigrationId::LegacyVectorPhysicalCleanup, MigrationStage::LegacyVectorDefinitions) => {
            assert(job.id.stages()[4] == stage);
            job.advance_stage(MigrationStage::ReleaseLegacyVectorReservations)
        },
        (MigrationId::LegacyVectorPhysicalCleanup, _) => {
            assert(job.id.stages()[5] == stage);
            job.complete()
        },
        (MigrationId::GraphFormatV1Cleanup, _) => {
            job.complete()
        },
    }
}

/// The state of a job created for `id` once `finished` of its stages are exhausted.
pub open spec fn state_after_stages(id: MigrationId, finished: nat) -> JobState
    decreases finished,
{
    if finished == 0 {
        JobState::initial(id)
    } else {
        state_after_stages(id, (finished - 1) as nat).stage_finished(id)
    }
}

/// A new job runs through the stages of its migration in their order, each from
/// its beginning, and completes exactly when the last one is exhausted.
pub proof fn law_job_walks_stages_in_order(id: MigrationId, finished: nat)
    ensures
        finished < id.stages().len() ==> state_after_stages(id, finished) == (JobState::Running {
            stage: id.stages()[finished as int],
            resume_after_key: None,
            processed_rows: 0,
        }),
        finished >= id.stages().len() ==> state_after_stages(id, finished) == (
        JobState::Completed { processed_rows: 0 }),
    decreases finished,
{
    if finished > 0 {
        law_job_walks_stages_in_order(id, (finished - 1) as nat);
        if finished - 1 < id.stages().len() {
            lemma_stage_after(id, finished - 1);
        }
    }
}

/// A retry takes a failed job up at exactly the state in which it failed.
pub proof fn law_retry_undoes_failure(state: JobState, error: Seq<char>)
    requires
        state is Running,
    ensures
        state.failed(error) is Failed,
        state.failed(error).retried() == state,
{
}

/// The failure of a running job always has a text, and its own text where it has one.
pub proof fn law_failures_have_a_text(state: JobState, error: Seq<char>)
    requires
        state is Running,
    ensures
        state.failed(shown_error(error)) matches JobState::Failed { error: shown, .. }
            && shown.len() > 0 && (error.len() > 0 ==> shown == error),
{
    reveal_strlit("migration failed without an error text");
    assert("migration failed without an error text"@.len() > 0);
}

/// A completed job neither fails, nor is retried, nor advances.
pub proof fn law_completion_is_final(
    state: JobState,
    id: MigrationId,
    key: Seq<u8>,
    rows: u64,
    error: Seq<char>,
)
    requires
        state is Completed,
    ensures
        state.failed(error) == state,
        state.retried() == state,
        state.advanced(key, rows) == state,
        state.stage_finished(id) == state,
{
}

/// No step of a job makes its row count smaller, and only a batch changes it.
pub proof fn law_rows_never_decrease(
    state: JobState,
    id: MigrationId,
    key: Seq<u8>,
    rows: u64,
    error: Seq<char>,
)
    ensures
        state.advanced(key, rows).rows() >= state.rows(),
        state.stage_finished(id).rows() == state.rows(),
        state.failed(error).rows() == state.rows(),
        state.retried().rows() == state.rows(),
{
}

/// A job never leaves the stages of its migration.
pub proof fn law_stages_stay_legal(
    state: JobState,
    id: MigrationId,
    key: Seq<u8>,
    rows: u64,
    error: Seq<char>,
)
    requires
        state.is_legal(id),
    ensures
        JobState::initial(id).is_legal(id),
        state.advanced(key, rows).is_legal(id),
        state.stage_finished(id).is_legal(id),
        state.failed(error).is_legal(id),
        state.retried().is_legal(id),
{
    lemma_stage_after(id, 0);
    if let JobState::Running { stage, .. } = state {
        let order = id.stages();
        if order.contains(stage) {
            let position = order.index_of(stage);
            lemma_stage_after(id, position);
            if position + 1 < order.len() {
                lemma_stage_after(id, position + 1);
            }
        }
    }
}

/// A finished stage of the graph rewrite is followed by the next one: indexes are cleared
/// before nodes are rebuilt, nodes before legacy edge pairs are rewritten, and those before
/// edge rows are rebuilt. A stage starts without a resume point, and no rows are forgotten.
pub proof fn law_graph_rewrite_goes_from_indexes_to_edges(key: Option<Seq<u8>>, rows: u64)
    ensures
        ({
            let id = MigrationId::GraphFormatV1Rewrite;
            let at = |stage: MigrationStage|
                JobState::Running { stage, resume_after_key: key, processed_rows: rows };
            let fresh = |stage: MigrationStage|
                JobState::Running { stage, resume_after_key: None, processed_rows: rows };
            &&& JobState::initial(id) == (JobState::Running {
                stage: MigrationStage::PropertyIndexes,
                resume_after_key: None,
                processed_rows: 0,
            })
            &&& at(MigrationStage::PropertyIndexes).stage_finished(id) == fresh(
                MigrationStage::NodeProperties,
            )
            &&& at(MigrationStage::NodeProperties).stage_finished(id) == fresh(
                MigrationStage::LegacyEdgePairs,
            )
            &&& at(MigrationStage::LegacyEdgePairs).stage_finished(id) == fresh(
                MigrationStage::EdgeEndpoints,
            )
            &&& at(MigrationStage::EdgeEndpoints).stage_finished(id) == (JobState::Completed {
                processed_rows: rows,
            })
        }),
{
    let id = MigrationId::GraphFormatV1Rewrite;
    lemma_stage_after(id, 0);
    lemma_stage_after(id, 1);
    lemma_stage_after(id, 2);
    lemma_stage_after(id, 3);
}

/// Vector properties are restored on nodes first and on edges then.
pub proof fn law_materialization_goes_from_nodes_to_edges(key: Option<Seq<u8>>, rows: u64)
    ensures
        ({
            let id = MigrationId::LegacyVectorPropertyMaterialization;
            let at = |stage: MigrationStage|
                JobState::Running { stage, resume_after_key: key, processed_rows: rows };
            &&& JobState::initial(id) == (JobState::Running {
                stage: MigrationStage::NodeProperties,
                resume_after_key: None,
                processed_rows: 0,
            })
            &&& at(MigrationStage::NodeProperties).stage_finished(id) == (JobState::Running {
                stage: MigrationStage::EdgeEndpoints,
                resume_after_key: None,
                processed_rows: rows,
            })
            &&& at(MigrationStage::EdgeEndpoints).stage_finished(id) == (JobState::Completed {
                processed_rows: rows,
            })
        }),
{
    let id = MigrationId::LegacyVectorPropertyMaterialization;
    lemma_stage_after(id, 0);
    lemma_stage_after(id, 1);
}

/// Legacy vector storage is fenced before any of its rows is deleted, its definitions go
/// behind its rows, and its reservations are released last.
pub proof fn law_vector_cleanup_goes_from_fence_to_release(key: Option<Seq<u8>>, rows: u64)
    ensures
        ({
            let id = MigrationId::LegacyVectorPhysicalCleanup;
            let at = |stage: MigrationStage|
                JobState::Running { stage, resume_after_key: key, processed_rows: rows };
            let fresh = |stage: MigrationStage|
                JobState::Running { stage, resume_after_key: None, processed_rows: rows };
            &&& JobState::initial(id) == (JobState::Running {
                stage: MigrationStage::FenceLegacyVectorSources,
                resume_after_key: None,
                processed_rows: 0,
            })
            &&& at(MigrationStage::FenceLegacyVectorSources).stage_finished(id) == fresh(
                MigrationStage::LegacyVectorHotRows,
            )
            &&& at(MigrationStage::LegacyVectorHotRows).stage_finished(id) == fresh(
                MigrationStage::LegacyVectorLayer0Rows,
            )
            &&& at(MigrationStage::LegacyVectorLayer0Rows).stage_finished(id) == fresh(
                MigrationStage::LegacyVectorCoreRows,
            )
            &&& at(MigrationStage::LegacyVectorCoreRows).stage_finished(id) == fresh(
                MigrationStage::LegacyVectorDefinitions,
            )
            &&& at(MigrationStage::LegacyVectorDefinitions).stage_finished(id) == fresh(
                MigrationStage::ReleaseLegacyVectorReservations,
            )
            &&& at(MigrationStage::ReleaseLegacyVectorReservations).stage_finished(id) == (
            JobState::Completed { processed_rows: rows })
        }),
{
    let id = MigrationId::LegacyVectorPhysicalCleanup;
    lemma_stage_after(id, 0);
    lemma_stage_after(id, 1);
    lemma_stage_after(id, 2);
    lemma_stage_after(id, 3);
    lemma_stage_after(id, 4);
    lemma_stage_after(id, 5);
}

/// The graph cleanup starts at the legacy edge pairs, and any stage that it finishes is
/// its last.
pub proof fn law_graph_cleanup_has_one_stage(
    stage: MigrationStage,
    key: Option<Seq<u8>>,
    rows: u64,
)
    ensures
        JobState::initial(MigrationId::GraphFormatV1Cleanup) == (JobState::Running {
            stage: MigrationStage::LegacyEdgePairs,
            resume_after_key: None,
            processed_rows: 0,
        }),
        (JobState::Running { stage, resume_after_key: key, processed_rows: rows }).stage_finished(
            MigrationId::GraphFormatV1Cleanup,
        ) == (JobState::Completed { processed_rows: rows }),
{
    let order = MigrationId::GraphFormatV1Cleanup.stages();
    if order.contains(stage) {
        lemma_stage_after(MigrationId::GraphFormatV1Cleanup, order.index_of(stage));
        assert(order.index_of(stage) == 0);
    }
}

/// A batch leaves a running job at its stage, moves its resume point to the last key, and
/// adds its rows without overflow.
pub proof fn law_batches_move_the_resume_point(
    stage: MigrationStage,
    resume_after_key: Option<Seq<u8>>,
    processed_rows: u64,
    key: Seq<u8>,
    rows: u64,
)
    ensures
        (JobState::Running { stage, resume_after_key, processed_rows }).advanced(key, rows) matches
            JobState::Running { stage: after, resume_after_key: Some(resumed), processed_rows: sum }
            && after == stage && resumed == key && (sum == processed_rows + rows || (sum
            == u64::MAX && processed_rows + rows > u64::MAX)),
{
}

/// A failure keeps the stage, the resume point and the rows of a running job, and a failed
/// job neither advances, nor moves on, nor fails anew.
pub proof fn law_failures_keep_the_place(
    stage: MigrationStage,
    resume_after_key: Option<Seq<u8>>,
    processed_rows: u64,
    error: Seq<char>,
    other: Seq<char>,
    id: MigrationId,
    key: Seq<u8>,
    rows: u64,
)
    ensures
        ({
            let running = JobState::Running { stage, resume_after_key, processed_rows };
            let failed = JobState::Failed { stage, resume_after_key, processed_rows, error };
            &&& running.failed(error) == failed
            &&& failed.retried() == running
            &&& running.retried() == running
            &&& failed.failed(other) == failed
            &&& failed.advanced(key, rows) == failed
            &&& failed.stage_finished(id) == failed
            &&& running.running_stage() == Some(stage)
            &&& failed.running_stage() is None
            &&& running.rows() == processed_rows
            &&& failed.rows() == processed_rows
        }),
{
}

/// A stage scans the rows that it is about: graph stages their own rows of the scope, and
/// stages of the vector cleanup the fenced reservations, the lane or the catalog that they
/// empty.
pub proof fn law_stages_scan_their_own_rows(stage: MigrationStage)
    ensures
        stage.keyspace_spec() is PropertyIndex <==> stage is PropertyIndexes,
        stage.keyspace_spec() is NodeProperty <==> stage is NodeProperties,
        stage.keyspace_spec() is EdgePropertyPair <==> stage is LegacyEdgePairs,
        stage.keyspace_spec() is EdgeEndpoints <==> stage is EdgeEndpoints,
        stage.keyspace_spec() is HotVectorLane <==> stage is LegacyVectorHotRows,
        stage.keyspace_spec() is Layer0VectorLane <==> stage is LegacyVectorLayer0Rows,
        stage.keyspace_spec() is DynamicIndexCatalog <==> stage is LegacyVectorDefinitions,
{
}

/// The names under which jobs are stored and reported are frozen.
pub proof fn law_job_names_are_frozen()
    ensures
        MigrationId::GraphFormatV1Rewrite.name() == "graph_format_v1_rewrite"@,
        MigrationId::LegacyVectorPropertyMaterialization.name()
            == "legacy_vector_property_materialization"@,
        MigrationId::LegacyVectorPhysicalCleanup.name() == "legacy_vector_physical_cleanup"@,
        MigrationId::GraphFormatV1Cleanup.name() == "graph_format_v1_cleanup"@,
        MigrationMode::BlockingStartup.name() == "blocking_startup"@,
        MigrationMode::Background.name() == "background"@,
        MigrationStage::PropertyIndexes.name() == "property_indexes"@,
        MigrationStage::NodeProperties.name() == "node_properties"@,
        MigrationStage::LegacyEdgePairs.name() == "legacy_edge_pairs"@,
        MigrationStage::EdgeEndpoints.name() == "edge_endpoints"@,
        MigrationStage::FenceLegacyVectorSources.name() == "fence_legacy_vector_sources"@,
        MigrationStage::LegacyVectorHotRows.name() == "legacy_vector_hot_rows"@,
        MigrationStage::LegacyVectorLayer0Rows.name() == "legacy_vector_layer_zero_rows"@,
        MigrationStage::LegacyVectorCoreRows.name() == "legacy_vector_core_rows"@,
        MigrationStage::LegacyVectorDefinitions.name() == "legacy_vector_definitions"@,
        MigrationStage::ReleaseLegacyVectorReservations.name()
            == "release_legacy_vector_reservations"@,
        shown_error(Seq::empty()) == "migration failed without an error text"@,
{
}

/// A job as a mathematical value tells apart what differs in its stored form.
pub proof fn law_job_states_are_told_apart(left: MigrationJobState, right: MigrationJobState)
    requires
        left@ == right@,
    ensures
        match (left, right) {
            (
                MigrationJobState::Running { stage, resume_after_key, processed_rows },
                MigrationJobState::Running {
                    stage: other_stage,
                    resume_after_key: other_key,
                    processed_rows: other_rows,
                },
            ) => stage == other_stage && processed_rows == other_rows && (resume_after_key is Some
                <==> other_key is Some) && (resume_after_key is Some ==> resume_after_key->0@
                == other_key->0@),
            (
                MigrationJobState::Completed { processed_rows },
                MigrationJobState::Completed { processed_rows: other_rows },
            ) => processed_rows == other_rows,
            (
                MigrationJobState::Failed { stage, resume_after_key, processed_rows, error },
                MigrationJobState::Failed {
                    stage: other_stage,
                    resume_after_key: other_key,
                    processed_rows: other_rows,
                    error: other_error,
                },
            ) => stage == other_stage && processed_rows == other_rows && error@ == other_error@ && (
            resume_after_key is Some <==> other_key is Some) && (resume_after_key is Some
                ==> resume_after_key->0@ == other_key->0@),
            _ => false,
        },
{
}

/// A job is found at the stages of its migration and at no others; only the graph cleanup
/// is found at every stage that scans graph rows.
pub proof fn law_jobs_are_found_at_their_stages(id: MigrationId, stage: MigrationStage)
    ensures
        id.allows(stage) <==> match id {
            MigrationId::GraphFormatV1Cleanup => stage is PropertyIndexes || stage is NodeProperties
                || stage is LegacyEdgePairs || stage is EdgeEndpoints,
            _ => id.stages().contains(stage),
        },
        stage.is_graph_stage() <==> stage is PropertyIndexes || stage is NodeProperties || stage
            is LegacyEdgePairs || stage is EdgeEndpoints,
{
    if id is GraphFormatV1Cleanup {
        assert(id.stages()[0] is LegacyEdgePairs);
        if id.stages().contains(stage) {
            assert(id.stages()[id.stages().index_of(stage)] == stage);
        }
    }
}

/// A resume key is seen with its bytes, and the lack of one as such.
pub proof fn law_resume_points_are_seen_as_they_are(key: MigrationResumeKey)
    ensures
        resume_view(Some(key)) == Some(key@),
        resume_view(None) is None,
{
}

} // verus!
