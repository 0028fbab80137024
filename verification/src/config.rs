//! Settings that a handle is opened with.
use vstd::prelude::*;

use crate::error::HelixDbError;

verus! {

/// Local storage profile with bounded defaults.
#[derive(Debug, Clone, Copy, PartialEq, Eq, Structural)]
pub enum EmbeddedStorageProfile {
    InMemory,
    Disk,
}

/// When a cache is warmed.
#[derive(Debug, Clone, Copy, PartialEq, Eq, Structural)]
pub enum CacheWarmMode {
    Off,
    /// Before the handle is returned.
    Blocking,
    /// By a task that the handle owns.
    Background,
}

/// Bounds of the write path.
#[derive(Debug, Clone, Copy, PartialEq, Eq, Structural)]
pub struct WriteBounds {
    pub l0_sst_size_bytes: u64,
    pub max_unflushed_bytes: u64,
}

/// Full-text cache that is held in memory.
#[derive(Debug, Clone, Copy, PartialEq, Eq, Structural)]
pub struct FtsMemoryCache {
    pub memory_bytes: u64,
    pub warm: CacheWarmMode,
}

/// Defaults of a handle that depend on where its data lies. What is absent follows the
/// general runtime defaults.
#[derive(Debug, Clone, Copy, PartialEq, Eq, Structural)]
pub struct DbConfig {
    /// Cadence at which writes become durable.
    pub flush_interval_millis: u64,
    pub write_bounds: Option<WriteBounds>,
    pub vector_budget_bytes: Option<u64>,
    pub simhasher_cache_bytes: Option<u64>,
    /// Storage block cache.
    pub block_bytes: u64,
    /// Storage metadata cache.
    pub metadata_bytes: u64,
    pub slate_warm: Option<CacheWarmMode>,
    pub fts: Option<FtsMemoryCache>,
}

impl DbConfig {
    /// The defaults of a local profile.
    pub open spec fn local(profile: EmbeddedStorageProfile) -> DbConfig {
        DbConfig {
            flush_interval_millis: if profile is InMemory {
                1
            } else {
                3
            },
            write_bounds: Some(
                WriteBounds { l0_sst_size_bytes: 0x100_0000, max_unflushed_bytes: 0x400_0000 },
            ),
            vector_budget_bytes: Some(0x400_0000),
            simhasher_cache_bytes: Some(0x80_0000),
            block_bytes: if profile is InMemory {
                0x100_0000
            } else {
                0x300_0000
            },
            metadata_bytes: if profile is InMemory {
                0x80_0000
            } else {
                0x100_0000
            },
            slate_warm: Some(CacheWarmMode::Off),
            fts: Some(FtsMemoryCache { memory_bytes: 0x100_0000, warm: CacheWarmMode::Off }),
        }
    }

    /// The defaults of remote storage.
    pub open spec fn general() -> DbConfig {
        DbConfig {
            flush_interval_millis: 100,
            write_bounds: None,
            vector_budget_bytes: Some(0x1000_0000),
            simhasher_cache_bytes: None,
            block_bytes: 0x2000_0000,
            metadata_bytes: 0x800_0000,
            slate_warm: None,
            fts: None,
        }
    }

    /// The bounded defaults of an embedded handle over local storage: one millisecond in
    /// memory and three on disk, with small caches and write buffers.
    pub fn embedded_default(profile: EmbeddedStorageProfile) -> (config: Self)
        ensures
            config == DbConfig::local(profile),
    {
        let (flush_interval_millis, block_bytes, metadata_bytes): (u64, u64, u64) = match profile {
            EmbeddedStorageProfile::InMemory => (1, 0x100_0000, 0x80_0000),
            EmbeddedStorageProfile::Disk => (3, 0x300_0000, 0x100_0000),
        };
        DbConfig {
            flush_interval_millis,
            write_bounds: Some(
                WriteBounds { l0_sst_size_bytes: 0x100_0000, max_unflushed_bytes: 0x400_0000 },
            ),
            vector_budget_bytes: Some(0x400_0000),
            simhasher_cache_bytes: Some(0x80_0000),
            block_bytes,
            metadata_bytes,
            slate_warm: Some(CacheWarmMode::Off),
            fts: Some(FtsMemoryCache { memory_bytes: 0x100_0000, warm: CacheWarmMode::Off }),
        }
    }

    /// The general runtime defaults, which remote storage keeps.
    pub fn new() -> (config: Self)
        ensures
            config == DbConfig::general(),
    {
        DbConfig {
            flush_interval_millis: 100,
            write_bounds: None,
            vector_budget_bytes: Some(0x1000_0000),
            simhasher_cache_bytes: None,
            block_bytes: 0x2000_0000,
            metadata_bytes: 0x800_0000,
            slate_warm: None,
            fts: None,
        }
    }

    /// Bytes that may wait to be flushed, where storage itself allows `storage_default`.
    pub open spec fn unflushed_bytes(self, storage_default: u64) -> u64 {
        match self.write_bounds {
            Some(bounds) => bounds.max_unflushed_bytes,
            None => storage_default,
        }
    }

    /// Bytes that may wait to be flushed, where storage itself allows `storage_default`.
    pub fn max_unflushed_bytes(&self, storage_default: u64) -> (bytes: u64)
        ensures
            bytes == self.unflushed_bytes(storage_default),
    {
        match self.write_bounds {
            Some(bounds) => bounds.max_unflushed_bytes,
            None => storage_default,
        }
    }
}

/// Reusable identity of an in-memory store that several handles share.
#[derive(Debug, PartialEq, Eq)]
pub struct ProcessLocalDatabaseToken {
    /// Logical database path inside the store.
    pub database: String,
    /// Number of the store within the process.
    pub store: u64,
}

/// Storage source used to open a handle.
#[allow(inconsistent_fields)]
#[derive(Debug, PartialEq, Eq)]
pub enum HelixDbSource {
    /// In-memory object store scoped by logical database path.
    InMemory {
        /// Logical database path inside the in-memory store.
        database: String,
    },
    /// Reusable in-memory identity shared by every handle opened from the token.
    InMemoryToken {
        /// Reusable in-memory object-store identity.
        token: ProcessLocalDatabaseToken,
    },
    /// Local filesystem object store rooted at `root`.
    Disk {
        /// Filesystem directory used as the object-store root.
        root: String,
        /// Logical database path inside the local object store.
        database: String,
    },
    /// S3-compatible object storage.
    ObjectStorage {
        /// Logical database path inside the object store.
        database: String,
        /// Bucket name.
        bucket: String,
        /// Region.
        region: String,
        /// Optional endpoint for S3-compatible local storage.
        endpoint: Option<String>,
        /// Whether HTTP endpoints are allowed.
        allow_http: bool,
    },
}

/// Object store that a source asks for.
#[derive(Debug, PartialEq, Eq)]
pub enum ObjectStorePlan {
    /// A new store in memory.
    FreshMemory,
    /// The store in memory of this number.
    SharedMemory(u64),
    /// A directory of the local filesystem.
    Directory(String),
    /// A bucket, with credentials from the environment.
    Bucket { bucket: String, region: String, endpoint: Option<String>, allow_http: bool },
}

impl HelixDbSource {
    /// The local profile of the source, if it is local.
    pub open spec fn profile(self) -> Option<EmbeddedStorageProfile> {
        match self {
            HelixDbSource::InMemory { .. } => Some(EmbeddedStorageProfile::InMemory),
            HelixDbSource::InMemoryToken { .. } => Some(EmbeddedStorageProfile::InMemory),
            HelixDbSource::Disk { .. } => Some(EmbeddedStorageProfile::Disk),
            HelixDbSource::ObjectStorage { .. } => None,
        }
    }

    /// The defaults of an embedded handle for this source.
    pub open spec fn default_config(self) -> DbConfig {
        match self.profile() {
            Some(profile) => DbConfig::local(profile),
            None => DbConfig::general(),
        }
    }

    /// Build the bounded defaults used by an embedded handle for this source.
    ///
    /// Local storage uses a shorter durability cadence and smaller cache and write-buffer
    /// bounds than remote object storage. Object storage retains the general runtime
    /// defaults because its latency and request-cost tradeoffs are different.
    pub fn embedded_default_config(&self) -> (config: DbConfig)
        ensures
            config == self.default_config(),
    {
        match self {
            HelixDbSource::InMemory { .. } | HelixDbSource::InMemoryToken { .. } =>
                DbConfig::embedded_default(EmbeddedStorageProfile::InMemory),
            HelixDbSource::Disk { .. } => DbConfig::embedded_default(EmbeddedStorageProfile::Disk),
            HelixDbSource::ObjectStorage { .. } => DbConfig::new(),
        }
    }

    /// Takes the source apart: the logical path, and the object store to build for it.
    pub fn into_parts(self) -> (parts: (String, ObjectStorePlan))
        ensures
            match self {
                HelixDbSource::InMemory { database } => parts.0 == database && parts.1
                    == ObjectStorePlan::FreshMemory,
                HelixDbSource::InMemoryToken { token } => parts.0 == token.database && parts.1
                    == ObjectStorePlan::SharedMemory(token.store),
                HelixDbSource::Disk { root, database } => parts.0 == database && parts.1
                    == ObjectStorePlan::Directory(root),
                HelixDbSource::ObjectStorage { database, bucket, region, endpoint, allow_http } =>
                    parts.0 == database && parts.1 == (ObjectStorePlan::Bucket {
                        bucket,
                        region,
                        endpoint,
                        allow_http,
                    }),
            },
    {
        match self {
            HelixDbSource::InMemory { database } => (database, ObjectStorePlan::FreshMemory),
            HelixDbSource::InMemoryToken { token } => (
                token.database,
                ObjectStorePlan::SharedMemory(token.store),
            ),
            HelixDbSource::Disk { root, database } => (database, ObjectStorePlan::Directory(root)),
            HelixDbSource::ObjectStorage { database, bucket, region, endpoint, allow_http } => (
                database,
                ObjectStorePlan::Bucket { bucket, region, endpoint, allow_http },
            ),
        }
    }
}

/// Every local source flushes sooner and holds less in its caches and write buffers than
/// remote storage, where storage itself lets more than the local bound wait for a flush.
pub proof fn law_local_defaults_are_tighter(
    local: HelixDbSource,
    remote: HelixDbSource,
    storage_default: u64,
)
    requires
        local.profile() is Some,
        remote.profile() is None,
        storage_default > 0x400_0000,
    ensures
        local.default_config().flush_interval_millis
            < remote.default_config().flush_interval_millis,
        local.default_config().block_bytes < remote.default_config().block_bytes,
        local.default_config().metadata_bytes < remote.default_config().metadata_bytes,
        local.default_config().vector_budget_bytes matches Some(small)
            && remote.default_config().vector_budget_bytes matches Some(large) && small < large,
        local.default_config().unflushed_bytes(storage_default)
            < remote.default_config().unflushed_bytes(storage_default),
{
}

/// The defaults depend on the kind of a source alone: two sources in memory agree, with or
/// without a token, and so do two on disk and two in object storage, whatever they name.
pub proof fn law_defaults_depend_on_the_kind_of_source(left: HelixDbSource, right: HelixDbSource)
    requires
        left.profile() == right.profile(),
    ensures
        left.default_config() == right.default_config(),
        left.profile() is None ==> left.default_config() == DbConfig::general(),
{
}

/// Caches that a handle keeps.
#[derive(Debug, Clone, Copy, PartialEq, Eq, Structural)]
pub enum CacheMode {
    /// Vectors only.
    VectorMemoryOnly,
    /// Storage caches in memory.
    Memory { fts: bool },
    /// Storage caches in memory and on disk.
    Hybrid { fts: bool },
}

/// How storage is opened with respect to its cache.
#[derive(Debug, Clone, Copy, PartialEq, Eq, Structural)]
pub enum CacheAttachment {
    /// Without any cache.
    Disabled,
    /// With the cache that was built.
    Built,
}

impl CacheMode {
    /// Decides how storage is opened, given whether a cache was built.
    pub fn attach(self, built: bool) -> (attachment: Result<CacheAttachment, HelixDbError>)
        ensures
            if self is VectorMemoryOnly {
                attachment == Ok::<CacheAttachment, HelixDbError>(CacheAttachment::Disabled)
            } else if built {
                attachment == Ok::<CacheAttachment, HelixDbError>(CacheAttachment::Built)
            } else {
                attachment matches Err(error) && error.is_config(
                    "configured SlateDB cache mode must build a cache"@,
                )
            },
    {
        match self {
            CacheMode::VectorMemoryOnly => Ok(CacheAttachment::Disabled),
            CacheMode::Memory { .. } | CacheMode::Hybrid { .. } => {
                if built {
                    Ok(CacheAttachment::Built)
                } else {
                    Err(
                        HelixDbError::Config(
                            "configured SlateDB cache mode must build a cache".to_owned(),
                        ),
                    )
                }
            },
        }
    }

    /// Whether a full-text cache is built.
    pub fn builds_fts_cache(self) -> (builds: bool)
        ensures
            builds == match self {
                CacheMode::VectorMemoryOnly => false,
                CacheMode::Memory { fts } => fts,
                CacheMode::Hybrid { fts } => fts,
            },
    {
        match self {
            CacheMode::VectorMemoryOnly => false,
            CacheMode::Memory { fts } => fts,
            CacheMode::Hybrid { fts } => fts,
        }
    }
}

/// How a family of index operations is discovered.
#[derive(Debug, Clone, Copy, PartialEq, Eq, Structural)]
pub enum IndexDriverScheduling {
    /// By the background worker.
    Automatic,
    /// Only on request.
    ExplicitOnly,
}

/// Whether the background worker does secondary work.
#[derive(Debug, Clone, Copy, PartialEq, Eq, Structural)]
pub enum SecondaryIndexLifecycleWorkerMode {
    Enabled,
    Disabled,
}

/// Runtime-only scheduling selection used while constructing family capabilities.
#[derive(Debug, Clone, Copy, PartialEq, Eq, Structural)]
pub enum IndexLifecycleScheduling {
    /// Preserve the configured secondary mode and automatic vector and text scheduling.
    Configured,
    /// Install every driver while excluding every lane from background discovery.
    ExplicitOnly,
}

/// How each family is discovered.
#[derive(Debug, Clone, Copy, PartialEq, Eq, Structural)]
pub struct FamilyScheduling {
    pub secondary: IndexDriverScheduling,
    pub vector: IndexDriverScheduling,
    pub text: IndexDriverScheduling,
}

impl IndexLifecycleScheduling {
    /// Applies the selection to what is configured.
    pub fn resolve(self, configured: IndexDriverScheduling) -> (scheduling: IndexDriverScheduling)
        ensures
            scheduling == match self {
                IndexLifecycleScheduling::Configured => configured,
                IndexLifecycleScheduling::ExplicitOnly => IndexDriverScheduling::ExplicitOnly,
            },
    {
        match self {
            IndexLifecycleScheduling::Configured => configured,
            IndexLifecycleScheduling::ExplicitOnly => IndexDriverScheduling::ExplicitOnly,
        }
    }

    /// Decides how each family is discovered.
    pub fn families(self, secondary: SecondaryIndexLifecycleWorkerMode) -> (families:
        FamilyScheduling)
        ensures
            families.secondary is Automatic <==> self is Configured && secondary is Enabled,
            families.vector is Automatic <==> self is Configured,
            families.text is Automatic <==> self is Configured,
    {
        let configured = match secondary {
            SecondaryIndexLifecycleWorkerMode::Enabled => IndexDriverScheduling::Automatic,
            SecondaryIndexLifecycleWorkerMode::Disabled => IndexDriverScheduling::ExplicitOnly,
        };
        FamilyScheduling {
            secondary: self.resolve(configured),
            vector: self.resolve(IndexDriverScheduling::Automatic),
            text: self.resolve(IndexDriverScheduling::Automatic),
        }
    }
}

/// Data in memory is flushed every millisecond and data on disk every three, both with small
/// write buffers and caches that start cold; remote storage is flushed ten times a second,
/// with large caches and the write buffers of storage itself.
pub proof fn law_defaults_fit_the_storage()
    ensures
        ({
            let memory = DbConfig::local(EmbeddedStorageProfile::InMemory);
            let disk = DbConfig::local(EmbeddedStorageProfile::Disk);
            let remote = DbConfig::general();
            &&& memory.flush_interval_millis == 1
            &&& disk.flush_interval_millis == 3
            &&& remote.flush_interval_millis == 100
            &&& memory.block_bytes == 16 * 1024 * 1024
            &&& disk.block_bytes == 48 * 1024 * 1024
            &&& remote.block_bytes == 512 * 1024 * 1024
            &&& memory.metadata_bytes == 8 * 1024 * 1024
            &&& disk.metadata_bytes == 16 * 1024 * 1024
            &&& remote.metadata_bytes == 128 * 1024 * 1024
            &&& memory.vector_budget_bytes == Some(0x400_0000u64)
            &&& disk.vector_budget_bytes == Some(0x400_0000u64)
            &&& remote.vector_budget_bytes == Some(0x1000_0000u64)
            &&& memory.simhasher_cache_bytes == Some(0x80_0000u64)
            &&& disk.simhasher_cache_bytes == Some(0x80_0000u64)
            &&& remote.simhasher_cache_bytes is None
            &&& memory.write_bounds == disk.write_bounds
            &&& memory.write_bounds == Some(
                WriteBounds { l0_sst_size_bytes: 0x100_0000, max_unflushed_bytes: 0x400_0000 },
            )
            &&& remote.write_bounds is None
            &&& memory.slate_warm == Some(CacheWarmMode::Off)
            &&& disk.slate_warm == Some(CacheWarmMode::Off)
            &&& remote.slate_warm is None
            &&& memory.fts == Some(
                FtsMemoryCache { memory_bytes: 0x100_0000, warm: CacheWarmMode::Off },
            )
            &&& disk.fts == memory.fts
            &&& remote.fts is None
        }),
{
}

/// A source in memory, with or without a token, and one on disk get the defaults of their
/// storage, and object storage gets those of remote storage.
pub proof fn law_sources_get_the_defaults_of_their_storage(source: HelixDbSource)
    ensures
        (source is InMemory || source is InMemoryToken) ==> source.default_config()
            == DbConfig::local(EmbeddedStorageProfile::InMemory),
        source is Disk ==> source.default_config() == DbConfig::local(EmbeddedStorageProfile::Disk),
        source is ObjectStorage ==> source.default_config() == DbConfig::general(),
        source.profile() is None <==> source is ObjectStorage,
{
}

/// A bound of its own limits what waits to be flushed, else that of storage does.
pub proof fn law_write_bounds_come_first(config: DbConfig, storage_default: u64)
    ensures
        config.write_bounds matches Some(bounds) ==> config.unflushed_bytes(storage_default)
            == bounds.max_unflushed_bytes,
        config.write_bounds is None ==> config.unflushed_bytes(storage_default) == storage_default,
{
}

} // verus!
