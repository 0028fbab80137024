//! What is warmed, in which order and within which budget.
use vstd::prelude::*;

use crate::cache::SlateWarmSummary;
use crate::config::CacheWarmMode;
use crate::mode::HelixDbMode;
use crate::runtime::ActiveIndexHandle;

verus! {

/// Identity of a stored table: its kind, then its number.
#[derive(Debug, Clone, Copy, PartialEq, Eq, Structural)]
pub struct SstId {
    pub kind: u8,
    pub number: u128,
}

impl SstId {
    /// Whether this table is older than another one.
    pub open spec fn is_older(self, other: SstId) -> bool {
        self.kind < other.kind || (self.kind == other.kind && self.number < other.number)
    }

    fn older(&self, other: &SstId) -> (older: bool)
        ensures
            older == self.is_older(*other),
    {
        self.kind < other.kind || (self.kind == other.kind && self.number < other.number)
    }
}

/// Whether tables stand from the newest to the oldest, none of them twice.
pub open spec fn newest_first(ids: Seq<SstId>) -> bool {
    forall|i: int, j: int|
        0 <= i < j < ids.len() ==> (#[trigger] ids[j]).is_older(#[trigger] ids[i])
}

/// Whether a selection leaves a table out only because it is full of newer ones.
pub open spec fn leaves_out_older(selected: Seq<SstId>, id: SstId, limit: nat) -> bool {
    selected.contains(id) || (selected.len() == limit && forall|i: int|
        0 <= i < selected.len() ==> id.is_older(#[trigger] selected[i]))
}

/// Takes one table into a bounded selection.
fn select_sst(selected: &mut Vec<SstId>, id: SstId, limit: usize)
    requires
        newest_first(old(selected)@),
        old(selected)@.len() <= limit,
    ensures
        newest_first(final(selected)@),
        final(selected)@.len() <= limit,
        leaves_out_older(final(selected)@, id, limit as nat),
        forall|other: SstId|
            #[trigger] leaves_out_older(old(selected)@, other, limit as nat) ==> leaves_out_older(
                final(selected)@,
                other,
                limit as nat,
            ),
        forall|i: int|
            0 <= i < final(selected)@.len() ==> (#[trigger] final(selected)@[i]) == id || old(
                selected,
            )@.contains(final(selected)@[i]),
{
    let ghost before = selected@;
    let mut position: usize = 0;
    while position < selected.len() && id.older(&selected[position])
        invariant
            position <= selected.len(),
            selected@ == before,
            forall|i: int| 0 <= i < position ==> id.is_older(#[trigger] selected@[i]),
        decreases selected.len() - position,
    {
        position = position + 1;
    }
    if position < selected.len() && selected[position] == id {
        assert(selected@.contains(id));
        return;
    }
    if position >= limit {
        assert(position == selected@.len());
        assert(leaves_out_older(selected@, id, limit as nat));
        return;
    }
    assert(forall|i: int| position <= i < before.len() ==> (#[trigger] before[i]).is_older(id)) by {
        assert forall|i: int| position <= i < before.len() implies (#[trigger] before[i]).is_older(
            id,
        ) by {
            assert(before[position as int].is_older(id));
            if i > position {
                assert(before[i].is_older(before[position as int]));
            }
        }
    }
    selected.insert(position, id);
    let ghost grown = selected@;
    assert(grown == before.insert(position as int, id));
    assert(newest_first(grown)) by {
        assert forall|i: int, j: int| 0 <= i < j < grown.len() implies (#[trigger] grown[j]).is_older(
            #[trigger] grown[i],
        ) by {
            let left = if i < position {
                i
            } else {
                i - 1
            };
            let right = if j < position {
                j
            } else {
                j - 1
            };
            if i != position && j != position {
                assert(before[right].is_older(before[left]));
            }
        }
    }
    assert(grown[position as int] == id);
    if selected.len() > limit {
        selected.pop();
        assert(selected@ =~= grown.drop_last());
        assert(before.len() == limit);
        assert(selected@[position as int] == id);
        assert(selected@.contains(id));
        assert forall|other: SstId|
            #[trigger] leaves_out_older(before, other, limit as nat) implies leaves_out_older(
            selected@,
            other,
            limit as nat,
        ) by {
            let last = grown[limit as int];
            assert(last == before[limit - 1]);
            if before.contains(other) {
                let at = before.index_of(other);
                if at < position {
                    assert(selected@[at] == other);
                } else if at < limit - 1 {
                    assert(selected@[at + 1] == other);
                } else {
                    assert(other == last);
                    assert forall|i: int| 0 <= i < selected@.len() implies other.is_older(
                        #[trigger] selected@[i],
                    ) by {
                        assert(grown[limit as int].is_older(grown[i]));
                    }
                }
            } else {
                assert forall|i: int| 0 <= i < selected@.len() implies other.is_older(
                    #[trigger] selected@[i],
                ) by {
                    assert(other.is_older(before[limit - 1]));
                    assert(last.is_older(grown[i]));
                }
            }
        }
    } else {
        assert(selected@[position as int] == id);
        assert forall|other: SstId|
            #[trigger] leaves_out_older(before, other, limit as nat) implies leaves_out_older(
            selected@,
            other,
            limit as nat,
        ) by {
            let at = before.index_of(other);
            if at < position {
                assert(selected@[at] == other);
            } else {
                assert(selected@[at + 1] == other);
            }
        }
    }
    assert forall|i: int| 0 <= i < selected@.len() implies (#[trigger] selected@[i]) == id
        || before.contains(selected@[i]) by {
        assert(selected@[i] == grown[i]);
        if i < position {
            assert(before[i] == grown[i]);
        } else if i > position {
            assert(before[i - 1] == grown[i]);
        }
    }
}

/// Selects the tables whose metadata is warmed: the newest ones, each once, from the
/// newest to the oldest.
pub fn newest_ssts(ids: &Vec<SstId>, limit: usize) -> (selected: Vec<SstId>)
    ensures
        newest_first(selected@),
        selected@.len() <= limit,
        forall|i: int|
            0 <= i < selected@.len() ==> ids@.contains(#[trigger] selected@[i]),
        forall|i: int|
            0 <= i < ids@.len() ==> leaves_out_older(selected@, #[trigger] ids@[i], limit as nat),
{
    let mut selected: Vec<SstId> = Vec::new();
    let mut position: usize = 0;
    while position < ids.len()
        invariant
            position <= ids.len(),
            newest_first(selected@),
            selected@.len() <= limit,
            forall|i: int|
                0 <= i < selected@.len() ==> ids@.contains(#[trigger] selected@[i]),
            forall|i: int|
                0 <= i < position ==> leaves_out_older(
                    selected@,
                    #[trigger] ids@[i],
                    limit as nat,
                ),
        decreases ids.len() - position,
    {
        let ghost before = selected@;
        select_sst(&mut selected, ids[position], limit);
        proof {
            assert(ids@.contains(ids@[position as int]));
            assert forall|i: int| 0 <= i < position + 1 implies leaves_out_older(
                selected@,
                #[trigger] ids@[i],
                limit as nat,
            ) by {
                if i < position {
                    assert(leaves_out_older(before, ids@[i], limit as nat));
                }
            }
        }
        position = position + 1;
    }
    selected
}

/// Sums up one pass over the storage metadata.
pub fn slate_warm_summary(sst_count: usize, warm_errors: u64, warm_elapsed_ms: u64) -> (summary:
    SlateWarmSummary)
    ensures
        summary.sst_count == sst_count,
        summary.warmed_ssts == (if warm_errors < sst_count {
            sst_count - warm_errors
        } else {
            0
        }),
        summary.warm_errors == warm_errors,
        summary.warm_elapsed_ms == warm_elapsed_ms,
{
    let warmed_ssts: usize = if warm_errors < sst_count as u64 {
        sst_count - warm_errors as usize
    } else {
        0
    };
    SlateWarmSummary { sst_count, warmed_ssts, warm_errors, warm_elapsed_ms }
}

/// The share of one scope in a bounded budget: all shares are equal but for the remainder,
/// of which the first scopes get one byte each.
pub open spec fn share(bytes: int, scope_count: int, ordinal: int) -> int {
    bytes / scope_count + (if ordinal < bytes % scope_count {
        1int
    } else {
        0int
    })
}

/// Divides a budget over the loaded scopes; an unbounded one stays unbounded.
pub fn scope_budget(budget: Option<u64>, scope_count: u64, ordinal: u64) -> (scope: Option<u64>)
    requires
        ordinal < scope_count,
    ensures
        match budget {
            Some(bytes) => scope matches Some(scope) && scope == share(
                bytes as int,
                scope_count as int,
                ordinal as int,
            ),
            None => scope is None,
        },
{
    match budget {
        Some(bytes) => {
            let equal: u64 = bytes / scope_count;
            let remainder: u64 = bytes % scope_count;
            if ordinal < remainder {
                proof {
                    assert(equal < u64::MAX) by (nonlinear_arith)
                        requires
                            equal == bytes / scope_count,
                            remainder == bytes % scope_count,
                            ordinal < remainder,
                            scope_count > 0,
                    {
                        assert(scope_count > 1);
                        assert(bytes / scope_count <= bytes / 2);
                    }
                }
                Some(equal + 1)
            } else {
                Some(equal)
            }
        },
        None => None,
    }
}

/// The shares of the first scopes together.
pub open spec fn shares_below(bytes: int, scope_count: int, bound: int) -> int
    decreases bound,
{
    if bound <= 0 {
        0
    } else {
        shares_below(bytes, scope_count, bound - 1) + share(bytes, scope_count, bound - 1)
    }
}

proof fn lemma_shares_below(bytes: int, scope_count: int, bound: int)
    requires
        0 <= bytes,
        0 < scope_count,
        0 <= bound <= scope_count,
    ensures
        shares_below(bytes, scope_count, bound) == bound * (bytes / scope_count) + (if bound
            < bytes % scope_count {
            bound
        } else {
            bytes % scope_count
        }),
    decreases bound,
{
    assert(0 <= bytes % scope_count < scope_count);
    if bound > 0 {
        lemma_shares_below(bytes, scope_count, bound - 1);
        let equal = bytes / scope_count;
        assert((bound - 1) * equal + equal == bound * equal) by (nonlinear_arith);
    } else {
        let equal = bytes / scope_count;
        assert(0 * equal == 0) by (nonlinear_arith);
    }
}

/// The shares of all scopes make up the whole budget, and no two differ by more than one
/// byte.
pub proof fn law_shares_make_up_the_budget(bytes: int, scope_count: int, left: int, right: int)
    requires
        0 <= bytes,
        0 < scope_count,
        0 <= left < scope_count,
        0 <= right < scope_count,
    ensures
        shares_below(bytes, scope_count, scope_count) == bytes,
        share(bytes, scope_count, left) <= share(bytes, scope_count, right) + 1,
{
    lemma_shares_below(bytes, scope_count, scope_count);
    vstd::arithmetic::div_mod::lemma_fundamental_div_mod(bytes, scope_count);
    assert(0 <= bytes % scope_count < scope_count);
}

/// Puts one handle behind every handle that does not come after it.
fn place_handle(ordered: &mut Vec<ActiveIndexHandle>, handle: ActiveIndexHandle)
    requires
        crate::runtime::in_order(old(ordered)@),
    ensures
        crate::runtime::in_order(final(ordered)@),
        crate::runtime::handle_views(final(ordered)@).to_multiset()
            == crate::runtime::handle_views(old(ordered)@).to_multiset().insert(handle@),
{
    let ghost before = ordered@;
    let mut position: usize = ordered.len();
    while position > 0 && handle.comes_before(&ordered[position - 1])
        invariant
            position <= ordered.len(),
            ordered@ == before,
            forall|i: int| position <= i < before.len() ==> handle.before(#[trigger] before[i]),
        decreases position,
    {
        position = position - 1;
    }
    ordered.insert(position, handle);
    let ghost grown = ordered@;
    proof {
        assert(grown == before.insert(position as int, handle));
        broadcast use vstd::seq_lib::group_to_multiset_ensures;

        let views = crate::runtime::handle_views(grown);
        assert(views.remove(position as int) =~= crate::runtime::handle_views(before));
        assert(views[position as int] == handle@);
        assert(views.contains(handle@));
        assert(views.to_multiset() =~= crate::runtime::handle_views(before).to_multiset().insert(
            handle@,
        ));
        assert forall|i: int, j: int| 0 <= i < j < grown.len() implies !(#[trigger] grown[j]).before(
            #[trigger] grown[i],
        ) by {
            let left = if i < position {
                i
            } else {
                i - 1
            };
            let right = if j < position {
                j
            } else {
                j - 1
            };
            if i != position && j != position {
                assert(!before[right].before(before[left]));
            } else if i == position {
                assert(handle.before(before[right]));
            } else {
                if position > 0 {
                    assert(!handle.before(before[position - 1]));
                    if left < position - 1 {
                        assert(!before[position - 1].before(before[left]));
                    }
                }
            }
        }
    }
}

/// Orders handles by scope, index and generation.
pub fn ordered_handles(handles: Vec<ActiveIndexHandle>) -> (ordered: Vec<ActiveIndexHandle>)
    ensures
        crate::runtime::in_order(ordered@),
        crate::runtime::handle_views(ordered@).to_multiset() == crate::runtime::handle_views(
            handles@,
        ).to_multiset(),
{
    let ghost all = handles@;
    let ghost views = crate::runtime::handle_views(all);
    let mut ordered: Vec<ActiveIndexHandle> = Vec::new();
    assert(views.take(0) =~= crate::runtime::handle_views(ordered@));
    for handle in iter: handles
        invariant
            iter.seq() == all,
            views == crate::runtime::handle_views(all),
            crate::runtime::in_order(ordered@),
            crate::runtime::handle_views(ordered@).to_multiset() == views.take(
                iter.index() as int,
            ).to_multiset(),
    {
        proof {
            broadcast use vstd::seq_lib::group_to_multiset_ensures;

            let at = iter.index() as int;
            assert(views.take(at + 1) =~= views.take(at).push(views[at]));
        }
        place_handle(&mut ordered, handle);
    }
    assert(views.take(views.len() as int) =~= views);
    ordered
}

/// What one pass over the full-text cache has warmed.
#[derive(Debug, Clone, Copy, PartialEq, Eq, Structural)]
pub struct FtsWarmSummary {
    pub generation_count: usize,
    pub split_count: usize,
    pub opened_splits: usize,
    pub hydrated_splits: usize,
    pub hydrated_bytes: u64,
    pub warm_errors: u64,
    pub warm_elapsed_ms: u64,
}

impl FtsWarmSummary {
    /// A pass that has warmed nothing yet.
    pub fn start(generation_count: usize) -> (summary: Self)
        ensures
            summary == (FtsWarmSummary {
                generation_count,
                split_count: 0,
                opened_splits: 0,
                hydrated_splits: 0,
                hydrated_bytes: 0,
                warm_errors: 0,
                warm_elapsed_ms: 0,
            }),
    {
        FtsWarmSummary {
            generation_count,
            split_count: 0,
            opened_splits: 0,
            hydrated_splits: 0,
            hydrated_bytes: 0,
            warm_errors: 0,
            warm_elapsed_ms: 0,
        }
    }

    /// Whether the counts of another pass can be taken in.
    pub open spec fn has_room(self, warmed: FtsWarmSummary) -> bool {
        &&& self.split_count + warmed.split_count <= usize::MAX
        &&& self.opened_splits + warmed.opened_splits <= usize::MAX
        &&& self.hydrated_splits + warmed.hydrated_splits <= usize::MAX
        &&& self.hydrated_bytes + warmed.hydrated_bytes <= u64::MAX
        &&& self.warm_errors + warmed.warm_errors <= u64::MAX
    }

    /// Whether the counts of another pass can be taken in.
    pub fn can_absorb(&self, warmed: &FtsWarmSummary) -> (can: bool)
        ensures
            can == self.has_room(*warmed),
    {
        warmed.split_count <= usize::MAX - self.split_count && warmed.opened_splits <= usize::MAX
            - self.opened_splits && warmed.hydrated_splits <= usize::MAX - self.hydrated_splits
            && warmed.hydrated_bytes <= u64::MAX - self.hydrated_bytes && warmed.warm_errors
            <= u64::MAX - self.warm_errors
    }

    /// Takes in what one generation has warmed.
    pub fn absorb(&mut self, warmed: &FtsWarmSummary)
        requires
            old(self).has_room(*warmed),
        ensures
            *final(self) == (FtsWarmSummary {
                generation_count: old(self).generation_count,
                split_count: (old(self).split_count + warmed.split_count) as usize,
                opened_splits: (old(self).opened_splits + warmed.opened_splits) as usize,
                hydrated_splits: (old(self).hydrated_splits + warmed.hydrated_splits) as usize,
                hydrated_bytes: (old(self).hydrated_bytes + warmed.hydrated_bytes) as u64,
                warm_errors: (old(self).warm_errors + warmed.warm_errors) as u64,
                warm_elapsed_ms: old(self).warm_elapsed_ms,
            }),
    {
        self.split_count = self.split_count + warmed.split_count;
        self.opened_splits = self.opened_splits + warmed.opened_splits;
        self.hydrated_splits = self.hydrated_splits + warmed.hydrated_splits;
        self.hydrated_bytes = self.hydrated_bytes + warmed.hydrated_bytes;
        self.warm_errors = self.warm_errors + warmed.warm_errors;
    }

    /// Counts a generation that could not be warmed.
    pub fn count_error(&mut self)
        requires
            old(self).warm_errors < u64::MAX,
        ensures
            *final(self) == (FtsWarmSummary {
                warm_errors: (old(self).warm_errors + 1) as u64,
                ..*old(self)
            }),
    {
        self.warm_errors = self.warm_errors + 1;
    }
}

/// How a cache is warmed when a handle opens.
#[derive(Debug, Clone, Copy, PartialEq, Eq, Structural)]
pub enum StartupWarm {
    /// Not at all.
    Skip,
    /// Before the handle is returned.
    Now,
    /// By a task that the handle owns.
    Spawn,
}

/// Decides how a cache is warmed when a handle opens.
pub fn startup_warm(mode: Option<CacheWarmMode>) -> (warm: StartupWarm)
    ensures
        warm == match mode {
            Some(CacheWarmMode::Blocking) => StartupWarm::Now,
            Some(CacheWarmMode::Background) => StartupWarm::Spawn,
            Some(CacheWarmMode::Off) => StartupWarm::Skip,
            None => StartupWarm::Skip,
        },
{
    match mode {
        Some(CacheWarmMode::Blocking) => StartupWarm::Now,
        Some(CacheWarmMode::Background) => StartupWarm::Spawn,
        Some(CacheWarmMode::Off) | None => StartupWarm::Skip,
    }
}

/// How vectors are brought into memory.
#[derive(Debug, Clone, Copy, PartialEq, Eq, Structural)]
pub enum VectorMemoryHydrationMode {
    /// Once before the handle is returned, then by its task.
    BlockingThenBackground,
    /// By the task of the handle.
    Background,
}

/// Vector warming of a handle that opens.
#[derive(Debug, Clone, Copy, PartialEq, Eq, Structural)]
pub struct VectorWarmPlan {
    /// Whether vectors are refreshed before the handle is returned.
    pub refresh_now: bool,
    /// Whether the handle owns a task that refreshes them.
    pub spawn_task: bool,
}

/// Decides how vectors are warmed; a reader has no sequence to warm them by.
pub fn plan_vector_warm(mode: HelixDbMode, hydration: VectorMemoryHydrationMode) -> (plan:
    VectorWarmPlan)
    ensures
        plan.spawn_task == (mode is Writer),
        plan.refresh_now == (mode is Writer && hydration is BlockingThenBackground),
{
    match mode {
        HelixDbMode::ReadOnly => VectorWarmPlan { refresh_now: false, spawn_task: false },
        HelixDbMode::Writer => VectorWarmPlan {
            refresh_now: matches!(hydration, VectorMemoryHydrationMode::BlockingThenBackground),
            spawn_task: true,
        },
    }
}

/// What a refreshing of the vector cache that waits is woken by.
#[derive(Debug, Clone, Copy, PartialEq, Eq, Structural)]
pub enum RefreshSignal {
    /// The interval has passed.
    IntervalElapsed,
    /// The shutdown flag was set anew, to this value.
    ShutdownFlag(bool),
    /// Nobody can set the shutdown flag any more.
    ShutdownLost,
}

/// Whether the vector cache is refreshed again.
pub fn refreshes_again(signal: RefreshSignal) -> (again: bool)
    ensures
        again == (signal is IntervalElapsed || signal == RefreshSignal::ShutdownFlag(false)),
{
    match signal {
        RefreshSignal::IntervalElapsed => true,
        RefreshSignal::ShutdownFlag(shutdown) => !shutdown,
        RefreshSignal::ShutdownLost => false,
    }
}

/// A table is older where its kind comes first, and within a kind where its number does; of
/// two tables exactly one is older.
pub proof fn law_tables_age_by_kind_and_number(left: SstId, right: SstId)
    ensures
        left.kind < right.kind ==> left.is_older(right),
        left.kind == right.kind ==> (left.is_older(right) <==> left.number < right.number),
        left.is_older(right) ==> !right.is_older(left),
        left == right || left.is_older(right) || right.is_older(left),
{
}

/// A selection of tables never leaves a newer one out for an older one.
pub proof fn law_newer_tables_are_kept(
    selected: Seq<SstId>,
    kept: SstId,
    left_out: SstId,
    limit: nat,
)
    requires
        leaves_out_older(selected, left_out, limit),
        selected.contains(kept),
        !selected.contains(left_out),
    ensures
        left_out.is_older(kept),
        selected.len() == limit,
{
    let at = selected.index_of(kept);
    assert(selected[at] == kept);
}

/// The first scopes get the odd bytes of a budget, and a single scope gets all of it.
pub proof fn law_first_scopes_get_the_remainder(bytes: int, scope_count: int, left: int, right: int)
    requires
        0 <= bytes,
        0 < scope_count,
        0 <= left <= right < scope_count,
    ensures
        share(bytes, scope_count, left) >= share(bytes, scope_count, right),
        share(bytes, 1, 0) == bytes,
{
}

/// Counts of a warm pass can be taken in exactly where none of the sums overflows.
pub proof fn law_sums_that_fit_are_taken_in(total: FtsWarmSummary, warmed: FtsWarmSummary)
    ensures
        total.has_room(warmed) <==> total.split_count + warmed.split_count <= usize::MAX
            && total.opened_splits + warmed.opened_splits <= usize::MAX && total.hydrated_splits
            + warmed.hydrated_splits <= usize::MAX && total.hydrated_bytes + warmed.hydrated_bytes
            <= u64::MAX && total.warm_errors + warmed.warm_errors <= u64::MAX,
{
}

/// Tables that stand newest first are older the further back they stand.
pub proof fn law_tables_stand_newest_first(ids: Seq<SstId>, left: int, right: int)
    requires
        newest_first(ids),
        0 <= left < right < ids.len(),
    ensures
        ids[right].is_older(ids[left]),
        ids[left] != ids[right],
{
}

/// A table that was selected is not left out, whatever the limit, and one that is not has to
/// be older than a full selection.
pub proof fn law_selected_tables_are_not_left_out(selected: Seq<SstId>, id: SstId, limit: nat)
    ensures
        selected.contains(id) ==> leaves_out_older(selected, id, limit),
        leaves_out_older(selected, id, limit) && selected.len() < limit ==> selected.contains(id),
        (selected.len() == limit && forall|i: int|
            0 <= i < selected.len() ==> id.is_older(#[trigger] selected[i])) ==> leaves_out_older(
            selected,
            id,
            limit,
        ),
{
}

} // verus!
