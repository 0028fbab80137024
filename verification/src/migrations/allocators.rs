//! Moving the identity allocators above identities that are in use.
use vstd::prelude::*;

use crate::error::HelixDbError;

verus! {

/// The greatest of the identities, or nothing where there are none.
pub open spec fn greatest(ids: Seq<u64>) -> Option<u64>
    decreases ids.len(),
{
    if ids.len() == 0 {
        None
    } else {
        match greatest(ids.drop_last()) {
            Some(before) if before >= ids.last() => Some(before),
            _ => Some(ids.last()),
        }
    }
}

/// Takes one more identity into account.
pub fn greater_id(current: Option<u64>, id: u64) -> (greater: Option<u64>)
    ensures
        greater == match current {
            Some(before) if before >= id => Some(before),
            _ => Some(id),
        },
        forall|ids: Seq<u64>| #[trigger]
            greatest(ids) == current ==> greatest(ids.push(id)) == greater,
{
    let greater = match current {
        Some(before) => if before >= id {
            Some(before)
        } else {
            Some(id)
        },
        None => Some(id),
    };
    assert forall|ids: Seq<u64>| #[trigger] greatest(ids) == current implies greatest(ids.push(id))
        == greater by {
        assert(ids.push(id).drop_last() =~= ids);
    }
    greater
}

/// The first identities that the allocators may hand out.
#[derive(Debug, Clone, Copy, PartialEq, Eq, Structural)]
pub struct AllocatorReservation {
    pub next_node_id: Option<u64>,
    pub next_edge_id: Option<u64>,
}

/// Decides how far both allocators move, given the greatest identities in use.
pub fn reserve_allocators_above_existing(
    max_node_id: Option<u64>,
    max_edge_id: Option<u64>,
) -> (reservation: Result<AllocatorReservation, HelixDbError>)
    ensures
        if max_node_id == Some(u64::MAX) {
            reservation matches Err(error) && error.is_invariant_violation(
                "cannot reserve node allocator above the maximum u64 node id"@,
            )
        } else if max_edge_id == Some(u64::MAX) {
            reservation matches Err(error) && error.is_invariant_violation(
                "cannot reserve edge allocator above the maximum u64 edge id"@,
            )
        } else {
            reservation matches Ok(reservation) && reservation.next_node_id == successor(
                max_node_id,
            ) && reservation.next_edge_id == successor(max_edge_id)
        },
{
    let next_node_id = match max_node_id {
        Some(id) => {
            if id == u64::MAX {
                return Err(
                    HelixDbError::InvariantViolation(
                        "cannot reserve node allocator above the maximum u64 node id".to_owned(),
                    ),
                );
            }
            Some(id + 1)
        },
        None => None,
    };
    let next_edge_id = match max_edge_id {
        Some(id) => {
            if id == u64::MAX {
                return Err(
                    HelixDbError::InvariantViolation(
                        "cannot reserve edge allocator above the maximum u64 edge id".to_owned(),
                    ),
                );
            }
            Some(id + 1)
        },
        None => None,
    };
    Ok(AllocatorReservation { next_node_id, next_edge_id })
}

/// The identity behind the greatest one in use.
pub open spec fn successor(max: Option<u64>) -> Option<u64> {
    match max {
        Some(id) => Some((id + 1) as u64),
        None => None,
    }
}

/// An allocator that starts where the reservation says hands out no identity in use.
pub proof fn law_reserved_ids_are_fresh(ids: Seq<u64>, next: u64, id: u64)
    requires
        greatest(ids) != Some(u64::MAX),
        successor(greatest(ids)) == Some(next),
        id >= next,
    ensures
        !ids.contains(id),
{
    lemma_greatest(ids);
    if ids.contains(id) {
        let at = ids.index_of(id);
        assert(ids[at] == id);
    }
}

proof fn lemma_greatest(ids: Seq<u64>)
    ensures
        greatest(ids) is None <==> ids.len() == 0,
        greatest(ids) matches Some(max) ==> ids.contains(max) && forall|i: int|
            0 <= i < ids.len() ==> #[trigger] ids[i] <= max,
    decreases ids.len(),
{
    if ids.len() > 0 {
        let before = ids.drop_last();
        lemma_greatest(before);
        assert(ids[ids.len() - 1] == ids.last());
        assert forall|i: int| 0 <= i < ids.len() implies #[trigger] ids[i] <= greatest(ids)->0 by {
            if i < before.len() {
                assert(before[i] == ids[i]);
            }
        }
        if greatest(ids) == greatest(before) && before.len() > 0 {
            let at = before.index_of(greatest(before)->0);
            assert(ids[at] == greatest(ids)->0);
        }
    }
}

/// The greatest identity is one of the identities, and none is above it.
pub proof fn law_greatest_is_the_maximum(ids: Seq<u64>, position: int)
    requires
        0 <= position < ids.len(),
    ensures
        greatest(ids) matches Some(max) && ids.contains(max) && ids[position] <= max,
        greatest(Seq::<u64>::empty()) is None,
{
    lemma_greatest(ids);
}

/// An allocator starts right behind the greatest identity, and stays where it is without one.
pub proof fn law_allocators_start_behind_the_greatest(max: u64)
    requires
        max < u64::MAX,
    ensures
        successor(Some(max)) matches Some(next) && next == max + 1,
        successor(None) is None,
{
}

} // verus!
