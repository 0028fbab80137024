//! Maps from numeric ids, walked in ascending order of the ids.
use std::collections::BTreeMap;
use vstd::prelude::*;
use vstd::std_specs::cmp::OrdSpec;
use vstd::std_specs::iter::IteratorSpec;

verus! {

/// Whether ids stand in strictly ascending order.
pub open spec fn ascending(ids: Seq<u64>) -> bool {
    forall|i: int, j: int| 0 <= i < j < ids.len() ==> ids[i] < ids[j]
}

/// Adds a value under an id that must be new: `false` says that it was not.
pub fn add_new<V>(map: &mut BTreeMap<u64, V>, id: u64, value: V) -> (added: bool)
    ensures
        added == !old(map)@.contains_key(id),
        final(map)@ == if added {
            old(map)@.insert(id, value)
        } else {
            old(map)@
        },
{
    if map.contains_key(&id) {
        return false;
    }
    let replaced = map.insert(id, value);
    true
}

/// The ids of a map in ascending order.
pub fn sorted_ids<V>(map: &BTreeMap<u64, V>) -> (ids: Vec<u64>)
    ensures
        ascending(ids@),
        forall|id: u64| #[trigger] ids@.contains(id) <==> map@.contains_key(id),
{
    let entries = map.iter();
    let mut ids: Vec<u64> = Vec::new();
    for entry in iter: entries
        invariant
            ids@.len() == iter.index(),
            forall|i: int| 0 <= i < ids@.len() ==> ids@[i] == *iter.seq()[i].0,
            iter.seq() == entries.remaining(),
    {
        ids.push(*entry.0);
    }
    proof {
        broadcast use vstd::std_specs::btree::group_btree_axioms;
        let all = entries.remaining();
        assert(ids@ =~= all.map_values(|entry: (&u64, &V)| *entry.0));
        assert(vstd::std_specs::btree::increasing_seq(ids@));
        assert forall|i: int, j: int| 0 <= i < j < ids@.len() implies ids@[i] < ids@[j] by {
            assert(ids@[i].cmp_spec(&ids@[j]) is Less);
        }
        assert forall|id: u64| #[trigger] ids@.contains(id) <==> map@.contains_key(id) by {
            if ids@.contains(id) {
                let place = ids@.index_of(id);
                assert(map@.contains_key(*all[place].0));
            }
            if map@.contains_key(id) {
                let place = all.index_of((&id, &map@[id]));
                assert(all.contains((&id, &map@[id])));
                assert(ids@[place] == id);
            }
        }
    }
    ids
}

/// Ascending ids never repeat and never fall.
pub proof fn law_ascending_ids_never_repeat(ids: Seq<u64>, left: int, right: int)
    requires
        0 <= left < right < ids.len(),
    ensures
        ids[left] >= ids[right] ==> !ascending(ids),
{
}

} // verus!
