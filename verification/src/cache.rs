//! Byte accounting of the cache tiers and sizing of the disk cache.
use vstd::prelude::*;

use crate::config::{CacheMode, CacheWarmMode};

verus! {

/// Meaning of the byte accounting exposed for one cache tier.
#[derive(Debug, Clone, Copy, PartialEq, Eq, Structural)]
pub enum CacheUsageSemantics {
    WeightedResident,
    EstimatedResident,
    PhysicalFiles,
    AllocatedBlocks,
}

/// Typed lifecycle and byte accounting for one cache tier.
#[allow(inconsistent_fields)]
#[derive(Debug, Clone, Copy, PartialEq, Eq, Structural)]
pub enum CacheTierState {
    Disabled,
    Initializing { capacity_bytes: Option<u64> },
    Ready { used_bytes: u64, capacity_bytes: Option<u64> },
    Unavailable,
}

/// What the storage engine reports of one of its caches.
#[allow(inconsistent_fields)]
#[derive(Debug, Clone, Copy, PartialEq, Eq, Structural)]
pub enum CacheUsageSnapshot {
    Disabled,
    Initializing { capacity_bytes: Option<u64> },
    Ready { used_bytes: u64, capacity_bytes: Option<u64> },
    Unavailable,
}

/// One point-in-time cache tier measurement.
#[derive(Debug, Clone, Copy, PartialEq, Eq, Structural)]
pub struct CacheTierSnapshot {
    pub semantics: CacheUsageSemantics,
    pub state: CacheTierState,
}

impl CacheUsageSnapshot {
    /// The state of the tier that the engine reports.
    pub open spec fn tier_state(self) -> CacheTierState {
        match self {
            CacheUsageSnapshot::Disabled => CacheTierState::Disabled,
            CacheUsageSnapshot::Initializing { capacity_bytes } => CacheTierState::Initializing {
                capacity_bytes,
            },
            CacheUsageSnapshot::Ready { used_bytes, capacity_bytes } => CacheTierState::Ready {
                used_bytes,
                capacity_bytes,
            },
            CacheUsageSnapshot::Unavailable => CacheTierState::Unavailable,
        }
    }
}

impl CacheTierSnapshot {
    /// A tier that is switched off.
    pub fn disabled(semantics: CacheUsageSemantics) -> (tier: Self)
        ensures
            tier == (CacheTierSnapshot { semantics, state: CacheTierState::Disabled }),
    {
        CacheTierSnapshot { semantics, state: CacheTierState::Disabled }
    }

    /// A tier that is in use.
    pub fn ready(semantics: CacheUsageSemantics, used_bytes: u64, capacity_bytes: Option<u64>) -> (
    tier: Self)
        ensures
            tier == (CacheTierSnapshot {
                semantics,
                state: CacheTierState::Ready { used_bytes, capacity_bytes },
            }),
    {
        CacheTierSnapshot {
            semantics,
            state: CacheTierState::Ready { used_bytes, capacity_bytes },
        }
    }

    /// A tier of the storage engine.
    pub fn from_slate(semantics: CacheUsageSemantics, snapshot: CacheUsageSnapshot) -> (tier: Self)
        ensures
            tier == (CacheTierSnapshot { semantics, state: snapshot.tier_state() }),
    {
        let state = match snapshot {
            CacheUsageSnapshot::Disabled => CacheTierState::Disabled,
            CacheUsageSnapshot::Initializing { capacity_bytes } => CacheTierState::Initializing {
                capacity_bytes,
            },
            CacheUsageSnapshot::Ready { used_bytes, capacity_bytes } => CacheTierState::Ready {
                used_bytes,
                capacity_bytes,
            },
            CacheUsageSnapshot::Unavailable => CacheTierState::Unavailable,
        };
        CacheTierSnapshot { semantics, state }
    }

    /// Whether the measurement says anything.
    pub fn is_publishable(self) -> (publishable: bool)
        ensures
            publishable == !(self.state is Unavailable),
    {
        !matches!(self.state, CacheTierState::Unavailable)
    }
}

/// Cheap aggregate cache snapshot for one live database handle.
#[derive(Debug, Clone, Copy, PartialEq, Eq, Structural)]
pub struct DatabaseCacheStats {
    pub slate_memory: CacheTierSnapshot,
    pub slate_object_store_disk: CacheTierSnapshot,
    pub foyer_hybrid_disk: CacheTierSnapshot,
    pub fts_memory: CacheTierSnapshot,
    pub fts_disk: CacheTierSnapshot,
    pub vector_memory: CacheTierSnapshot,
}

impl DatabaseCacheStats {
    /// Whether every measurement says something.
    pub fn is_publishable(self) -> (publishable: bool)
        ensures
            publishable == (!(self.slate_memory.state is Unavailable)
                && !(self.slate_object_store_disk.state is Unavailable)
                && !(self.foyer_hybrid_disk.state is Unavailable)
                && !(self.fts_memory.state is Unavailable) && !(self.fts_disk.state is Unavailable)
                && !(self.vector_memory.state is Unavailable)),
    {
        self.slate_memory.is_publishable() && self.slate_object_store_disk.is_publishable()
            && self.foyer_hybrid_disk.is_publishable() && self.fts_memory.is_publishable()
            && self.fts_disk.is_publishable() && self.vector_memory.is_publishable()
    }
}

/// What the storage engine reports of its caches.
#[derive(Debug, Clone, Copy, PartialEq, Eq, Structural)]
pub struct SlateUsage {
    pub memory: CacheUsageSnapshot,
    pub disk: CacheUsageSnapshot,
    pub object_store: CacheUsageSnapshot,
}

/// What the full-text cache reports of itself.
#[derive(Debug, Clone, Copy, PartialEq, Eq, Structural)]
pub struct FtsUsage {
    pub retained_split_bytes: u64,
    pub memory_budget_bytes: u64,
    pub disk_artifact_bytes: u64,
    pub disk_budget_bytes: u64,
}

/// Builds the cache snapshot of one handle.
///
/// The disk of the hybrid cache counts only where that cache is configured, and the disk
/// of the full-text cache only where it has a budget.
pub fn cache_stats(
    mode: CacheMode,
    slate: SlateUsage,
    fts: Option<FtsUsage>,
    vector_bytes: u64,
    vector_budget_bytes: Option<u64>,
) -> (stats: DatabaseCacheStats)
    ensures
        stats.slate_memory == (CacheTierSnapshot {
            semantics: CacheUsageSemantics::WeightedResident,
            state: slate.memory.tier_state(),
        }),
        stats.slate_object_store_disk == (CacheTierSnapshot {
            semantics: CacheUsageSemantics::PhysicalFiles,
            state: slate.object_store.tier_state(),
        }),
        stats.foyer_hybrid_disk == (CacheTierSnapshot {
            semantics: CacheUsageSemantics::AllocatedBlocks,
            state: if mode is Hybrid {
                slate.disk.tier_state()
            } else {
                CacheTierState::Disabled
            },
        }),
        stats.fts_memory == (CacheTierSnapshot {
            semantics: CacheUsageSemantics::WeightedResident,
            state: match fts {
                Some(fts) => CacheTierState::Ready {
                    used_bytes: fts.retained_split_bytes,
                    capacity_bytes: Some(fts.memory_budget_bytes),
                },
                None => CacheTierState::Disabled,
            },
        }),
        stats.fts_disk == (CacheTierSnapshot {
            semantics: CacheUsageSemantics::PhysicalFiles,
            state: match fts {
                Some(fts) if fts.disk_budget_bytes != 0 => CacheTierState::Ready {
                    used_bytes: fts.disk_artifact_bytes,
                    capacity_bytes: Some(fts.disk_budget_bytes),
                },
                _ => CacheTierState::Disabled,
            },
        }),
        stats.vector_memory == (CacheTierSnapshot {
            semantics: CacheUsageSemantics::EstimatedResident,
            state: CacheTierState::Ready {
                used_bytes: vector_bytes,
                capacity_bytes: vector_budget_bytes,
            },
        }),
{
    let (fts_memory, fts_disk) = match fts {
        Some(fts) => {
            let memory = CacheTierSnapshot::ready(
                CacheUsageSemantics::WeightedResident,
                fts.retained_split_bytes,
                Some(fts.memory_budget_bytes),
            );
            let disk = if fts.disk_budget_bytes == 0 {
                CacheTierSnapshot::disabled(CacheUsageSemantics::PhysicalFiles)
            } else {
                CacheTierSnapshot::ready(
                    CacheUsageSemantics::PhysicalFiles,
                    fts.disk_artifact_bytes,
                    Some(fts.disk_budget_bytes),
                )
            };
            (memory, disk)
        },
        None => (
            CacheTierSnapshot::disabled(CacheUsageSemantics::WeightedResident),
            CacheTierSnapshot::disabled(CacheUsageSemantics::PhysicalFiles),
        ),
    };
    let foyer_hybrid_disk = match mode {
        CacheMode::Hybrid { .. } => CacheTierSnapshot::from_slate(
            CacheUsageSemantics::AllocatedBlocks,
            slate.disk,
        ),
        _ => CacheTierSnapshot::disabled(CacheUsageSemantics::AllocatedBlocks),
    };
    DatabaseCacheStats {
        slate_memory: CacheTierSnapshot::from_slate(
            CacheUsageSemantics::WeightedResident,
            slate.memory,
        ),
        slate_object_store_disk: CacheTierSnapshot::from_slate(
            CacheUsageSemantics::PhysicalFiles,
            slate.object_store,
        ),
        foyer_hybrid_disk,
        fts_memory,
        fts_disk,
        vector_memory: CacheTierSnapshot::ready(
            CacheUsageSemantics::EstimatedResident,
            vector_bytes,
            vector_budget_bytes,
        ),
    }
}

/// What one pass over the storage metadata has warmed.
#[derive(Debug, Clone, Copy, PartialEq, Eq, Structural)]
pub struct SlateWarmSummary {
    /// Physical SSTs selected from the current manifest.
    pub sst_count: usize,
    /// Selected SSTs whose metadata targets warmed successfully.
    pub warmed_ssts: usize,
    /// Selected SSTs whose metadata targets failed to warm.
    pub warm_errors: u64,
    /// End-to-end elapsed milliseconds for this warm pass.
    pub warm_elapsed_ms: u64,
}

impl Default for SlateWarmSummary {
    fn default() -> (summary: Self)
        ensures
            summary.sst_count == 0,
            summary.warmed_ssts == 0,
            summary.warm_errors == 0,
            summary.warm_elapsed_ms == 0,
    {
        SlateWarmSummary { sst_count: 0, warmed_ssts: 0, warm_errors: 0, warm_elapsed_ms: 0 }
    }
}

/// State of the storage metadata warming.
#[derive(Debug, Clone, Copy, PartialEq, Eq, Structural)]
pub struct SlateCacheStateSnapshot {
    /// Whether proactive metadata warming is configured.
    pub enabled: bool,
    /// Configured startup warm mode, if warming is configured.
    pub warm_mode: Option<CacheWarmMode>,
    /// Most recently completed warm pass in this process.
    pub last_warm: Option<SlateWarmSummary>,
}

/// Reports the state of the storage metadata warming.
pub fn slate_cache_state(warm_mode: Option<CacheWarmMode>, last_warm: Option<SlateWarmSummary>) -> (
state: SlateCacheStateSnapshot)
    ensures
        state.enabled == (warm_mode matches Some(mode) && !(mode is Off)),
        state.warm_mode == warm_mode,
        state.last_warm == last_warm,
{
    let enabled = match warm_mode {
        Some(CacheWarmMode::Blocking) | Some(CacheWarmMode::Background) => true,
        Some(CacheWarmMode::Off) | None => false,
    };
    SlateCacheStateSnapshot { enabled, warm_mode, last_warm }
}

/// Smallest block of the disk cache.
pub const FOYER_MIN_DISK_BLOCK_SIZE_BYTES: usize = 0x1_0000;

/// Largest block of the disk cache.
pub const FOYER_MAX_DISK_BLOCK_SIZE_BYTES: usize = 0x100_0000;

/// Number of partitions that the disk cache stays within where its largest block allows.
pub const FOYER_TARGET_MAX_DISK_PARTITIONS: usize = 0x8000;

/// The block sizes: the powers of two from 64 KiB to 16 MiB.
pub open spec fn is_block_size(size: int) -> bool {
    ||| size == 0x1_0000
    ||| size == 0x2_0000
    ||| size == 0x4_0000
    ||| size == 0x8_0000
    ||| size == 0x10_0000
    ||| size == 0x20_0000
    ||| size == 0x40_0000
    ||| size == 0x80_0000
    ||| size == 0x100_0000
}

/// Whether a block size keeps the disk cache within its number of partitions.
pub open spec fn is_wide_enough(size: int, capacity: int) -> bool {
    capacity <= size * FOYER_TARGET_MAX_DISK_PARTITIONS
}

/// Selects the block size of a disk cache: the smallest that keeps it within its number
/// of partitions, or the largest where none does.
pub fn foyer_disk_block_size(disk_capacity_bytes: usize) -> (size: usize)
    ensures
        is_block_size(size as int),
        is_wide_enough(size as int, disk_capacity_bytes as int) || size
            == FOYER_MAX_DISK_BLOCK_SIZE_BYTES,
        forall|smaller: int|
            #[trigger] is_block_size(smaller) && smaller < size ==> !is_wide_enough(
                smaller,
                disk_capacity_bytes as int,
            ),
{
    let partitions: usize = FOYER_TARGET_MAX_DISK_PARTITIONS;
    let whole: usize = disk_capacity_bytes / partitions;
    let needed: usize = if disk_capacity_bytes % partitions == 0 {
        whole
    } else {
        whole + 1
    };
    let mut size: usize = FOYER_MIN_DISK_BLOCK_SIZE_BYTES;
    while size < needed && size < FOYER_MAX_DISK_BLOCK_SIZE_BYTES
        invariant
            is_block_size(size as int),
            forall|block: int| is_wide_enough(block, disk_capacity_bytes as int) <==> block
                >= needed,
            forall|smaller: int|
                #[trigger] is_block_size(smaller) && smaller < size ==> smaller < needed,
        decreases FOYER_MAX_DISK_BLOCK_SIZE_BYTES - size,
    {
        size = size * 2;
    }
    size
}

/// A disk cache of up to 512 GiB stays within its number of partitions.
pub proof fn law_disk_partitions_are_bounded(capacity: int, size: int)
    requires
        0 < capacity <= 0x80_0000_0000,
        is_block_size(size),
        is_wide_enough(size, capacity) || size == FOYER_MAX_DISK_BLOCK_SIZE_BYTES,
    ensures
        capacity <= size * FOYER_TARGET_MAX_DISK_PARTITIONS,
{
}

/// A tier is shown as the storage engine reports it, with the bytes that it reports.
pub proof fn law_tiers_are_shown_as_reported(used: u64, capacity: Option<u64>)
    ensures
        CacheUsageSnapshot::Disabled.tier_state() == CacheTierState::Disabled,
        CacheUsageSnapshot::Unavailable.tier_state() == CacheTierState::Unavailable,
        (CacheUsageSnapshot::Initializing { capacity_bytes: capacity }).tier_state() == (
        CacheTierState::Initializing { capacity_bytes: capacity }),
        (CacheUsageSnapshot::Ready { used_bytes: used, capacity_bytes: capacity }).tier_state() == (
        CacheTierState::Ready { used_bytes: used, capacity_bytes: capacity }),
{
}

/// Blocks of the disk cache are powers of two, from 64 KiB to 16 MiB: doubling one that is
/// below the largest gives the next, and there is none in between.
pub proof fn law_block_sizes_double(size: int, other: int)
    requires
        is_block_size(size),
        is_block_size(other),
    ensures
        0x1_0000 <= size <= 0x100_0000,
        size < 0x100_0000 ==> is_block_size(size * 2),
        size < other ==> size * 2 <= other,
        is_block_size(0x1_0000) && is_block_size(0x100_0000),
{
}

/// A block size is wide enough exactly where the cache takes at most 32768 such blocks.
pub proof fn law_partitions_stay_within_their_number(size: int, capacity: int)
    ensures
        is_wide_enough(size, capacity) <==> capacity <= size * 32768,
        FOYER_MIN_DISK_BLOCK_SIZE_BYTES == 64 * 1024,
        FOYER_MAX_DISK_BLOCK_SIZE_BYTES == 16 * 1024 * 1024,
{
}

} // verus!
