//! Names in the order of their bytes.
use vstd::prelude::*;

verus! {

/// Whether a name comes before another, byte by byte.
pub open spec fn name_precedes(left: Seq<char>, right: Seq<char>) -> bool {
    crate::migrations::keys::key_precedes(
        vstd::utf8::encode_utf8(left),
        vstd::utf8::encode_utf8(right),
    )
}

/// Tells whether a name comes before another.
pub fn text_precedes(left: &str, right: &str) -> (precedes: bool)
    ensures
        precedes == name_precedes(left@, right@),
{
    let left = left.as_bytes();
    let right = right.as_bytes();
    let mut position: usize = 0;
    assert(left@.skip(0) =~= left@ && right@.skip(0) =~= right@);
    while position < left.len() && position < right.len() && left[position] == right[position]
        invariant
            position <= left@.len(),
            position <= right@.len(),
            crate::migrations::keys::key_precedes(left@, right@)
                == crate::migrations::keys::key_precedes(
                left@.skip(position as int),
                right@.skip(position as int),
            ),
        decreases left@.len() - position,
    {
        assert(left@.skip(position as int).drop_first() =~= left@.skip(position + 1));
        assert(right@.skip(position as int).drop_first() =~= right@.skip(position + 1));
        position = position + 1;
    }
    if position >= right.len() {
        false
    } else if position >= left.len() {
        true
    } else {
        left[position] < right[position]
    }
}

proof fn lemma_keys_are_ordered(left: Seq<u8>, middle: Seq<u8>, right: Seq<u8>)
    ensures
        crate::migrations::keys::key_precedes(left, middle)
            ==> !crate::migrations::keys::key_precedes(middle, left),
        crate::migrations::keys::key_precedes(left, middle)
            && crate::migrations::keys::key_precedes(middle, right)
            ==> crate::migrations::keys::key_precedes(left, right),
        left == middle || crate::migrations::keys::key_precedes(left, middle)
            || crate::migrations::keys::key_precedes(middle, left),
    decreases left.len(),
{
    if left.len() > 0 && middle.len() > 0 {
        if right.len() > 0 {
            lemma_keys_are_ordered(left.drop_first(), middle.drop_first(), right.drop_first());
        } else {
            lemma_keys_are_ordered(left.drop_first(), middle.drop_first(), right);
        }
        if left[0] == middle[0] && left.drop_first() == middle.drop_first() {
            assert(left =~= seq![left[0]] + left.drop_first());
            assert(middle =~= seq![middle[0]] + middle.drop_first());
        }
    } else if left.len() == 0 && middle.len() == 0 {
        assert(left =~= middle);
    }
}

/// Names are in a total order: of two that differ exactly one comes first, and what comes
/// before a name comes before all that the name comes before.
pub proof fn law_names_are_ordered(left: Seq<char>, middle: Seq<char>, right: Seq<char>)
    ensures
        !name_precedes(left, left),
        name_precedes(left, middle) ==> !name_precedes(middle, left),
        name_precedes(left, middle) && name_precedes(middle, right) ==> name_precedes(
            left,
            right,
        ),
        left == middle || name_precedes(left, middle) || name_precedes(middle, left),
{
    let a = vstd::utf8::encode_utf8(left);
    let b = vstd::utf8::encode_utf8(middle);
    let c = vstd::utf8::encode_utf8(right);
    lemma_keys_are_ordered(a, b, c);
    lemma_keys_are_ordered(a, a, a);
    if a == b {
        vstd::utf8::encode_utf8_decode_utf8(left);
        vstd::utf8::encode_utf8_decode_utf8(middle);
    }
}

/// Named items after one more was put in where its name belongs. An item of the same name
/// gives way to it.
pub open spec fn with_item<T>(items: Seq<(String, T)>, item: (String, T)) -> Seq<(String, T)>
    decreases items.len(),
{
    if items.len() == 0 {
        seq![item]
    } else if name_precedes(items[0].0@, item.0@) {
        seq![items[0]] + with_item(items.drop_first(), item)
    } else if items[0].0@ == item.0@ {
        seq![item] + items.drop_first()
    } else {
        seq![item] + items
    }
}

/// Named items in the order of their names. Where a name occurs more than once, the last
/// item of that name counts.
pub open spec fn by_name<T>(items: Seq<(String, T)>) -> Seq<(String, T)>
    decreases items.len(),
{
    if items.len() == 0 {
        Seq::empty()
    } else {
        with_item(by_name(items.drop_last()), items.last())
    }
}

/// Whether each name comes before all names behind it.
pub open spec fn names_ascend<T>(items: Seq<(String, T)>) -> bool {
    forall|i: int, j: int|
        0 <= i < j < items.len() ==> name_precedes(
            (#[trigger] items[i]).0@,
            (#[trigger] items[j]).0@,
        )
}

/// Whether an item is the last one of its name.
pub open spec fn is_last_of_name<T>(items: Seq<(String, T)>, position: int) -> bool {
    &&& 0 <= position < items.len()
    &&& forall|later: int|
        position < later < items.len() ==> (#[trigger] items[later]).0@ != items[position].0@
}

proof fn lemma_with_item<T>(items: Seq<(String, T)>, item: (String, T))
    requires
        names_ascend(items),
    ensures
        names_ascend(with_item(items, item)),
        with_item(items, item).contains(item),
        forall|other: (String, T)| #[trigger]
            with_item(items, item).contains(other) <==> other == item || (items.contains(other)
                && other.0@ != item.0@),
    decreases items.len(),
{
    let placed = with_item(items, item);
    if items.len() == 0 {
        assert(placed[0] == item);
    } else {
        let rest = items.drop_first();
        law_names_are_ordered(items[0].0@, item.0@, item.0@);
        assert forall|i: int, j: int| 0 <= i < j < rest.len() implies name_precedes(
            (#[trigger] rest[i]).0@,
            (#[trigger] rest[j]).0@,
        ) by {
            assert(name_precedes(items[i + 1].0@, items[j + 1].0@));
        }
        assert forall|k: int| 0 <= k < rest.len() implies name_precedes(
            items[0].0@,
            (#[trigger] rest[k]).0@,
        ) by {
            assert(rest[k] == items[k + 1]);
        }
        assert forall|other: (String, T)| #[trigger] items.contains(other) <==> other == items[0]
            || rest.contains(other) by {
            if items.contains(other) {
                let k = choose|k: int| 0 <= k < items.len() && items[k] == other;
                if k > 0 {
                    assert(rest[k - 1] == other);
                }
            }
            if rest.contains(other) {
                let k = choose|k: int| 0 <= k < rest.len() && rest[k] == other;
                assert(items[k + 1] == other);
            }
        }
        if name_precedes(items[0].0@, item.0@) {
            lemma_with_item(rest, item);
            let tail = with_item(rest, item);
            assert(placed.drop_first() =~= tail);
            assert forall|k: int| 0 <= k < tail.len() implies name_precedes(
                items[0].0@,
                (#[trigger] tail[k]).0@,
            ) by {
                assert(tail.contains(tail[k]));
                if tail[k] != item {
                    let at = choose|at: int| 0 <= at < rest.len() && rest[at] == tail[k];
                    assert(name_precedes(items[0].0@, rest[at].0@));
                }
            }
            lemma_first_and_rest(placed, items[0], tail);
        } else if items[0].0@ == item.0@ {
            assert forall|other: (String, T)| rest.contains(other) implies other.0@ != item.0@ by {
                let at = choose|at: int| 0 <= at < rest.len() && rest[at] == other;
                assert(name_precedes(items[0].0@, rest[at].0@));
            }
            lemma_first_and_rest(placed, item, rest);
        } else {
            assert forall|k: int| 0 <= k < items.len() implies name_precedes(
                item.0@,
                (#[trigger] items[k]).0@,
            ) by {
                if k > 0 {
                    assert(name_precedes(items[0].0@, items[k].0@));
                    law_names_are_ordered(item.0@, items[0].0@, items[k].0@);
                }
            }
            assert forall|other: (String, T)| items.contains(other) implies other.0@ != item.0@ by {
                let at = choose|at: int| 0 <= at < items.len() && items[at] == other;
                assert(name_precedes(item.0@, items[at].0@));
            }
            lemma_first_and_rest(placed, item, items);
        }
    }
}

proof fn lemma_first_and_rest<T>(items: Seq<(String, T)>, first: (String, T), rest: Seq<(String, T)>)
    requires
        items == seq![first] + rest,
        names_ascend(rest),
        forall|k: int| 0 <= k < rest.len() ==> name_precedes(first.0@, (#[trigger] rest[k]).0@),
    ensures
        names_ascend(items),
        forall|other: (String, T)| #[trigger]
            items.contains(other) <==> other == first || rest.contains(other),
{
    assert forall|i: int, j: int| 0 <= i < j < items.len() implies name_precedes(
        (#[trigger] items[i]).0@,
        (#[trigger] items[j]).0@,
    ) by {
        assert(items[j] == rest[j - 1]);
        if i > 0 {
            assert(items[i] == rest[i - 1]);
        }
    }
    assert forall|other: (String, T)| #[trigger] items.contains(other) <==> other == first
        || rest.contains(other) by {
        if items.contains(other) {
            let k = choose|k: int| 0 <= k < items.len() && items[k] == other;
            if k > 0 {
                assert(rest[k - 1] == other);
            }
        }
        if rest.contains(other) {
            let k = choose|k: int| 0 <= k < rest.len() && rest[k] == other;
            assert(items[k + 1] == other);
        }
        assert(items[0] == first);
    }
}

/// In the order of their names, items stand with each name before all names behind it, and
/// they are the last items of each name.
pub proof fn law_items_come_in_name_order<T>(items: Seq<(String, T)>)
    ensures
        names_ascend(by_name(items)),
        forall|item: (String, T)| #[trigger]
            by_name(items).contains(item) <==> exists|position: int| #[trigger]
                is_last_of_name(items, position) && items[position] == item,
    decreases items.len(),
{
    if items.len() > 0 {
        let before = items.drop_last();
        let last = items.last();
        law_items_come_in_name_order(before);
        lemma_with_item(by_name(before), last);
        assert forall|item: (String, T)| #[trigger] by_name(items).contains(item) <==> exists|
            position: int,
        | #[trigger]
            is_last_of_name(items, position) && items[position] == item by {
            if by_name(items).contains(item) {
                if item == last {
                    assert(is_last_of_name(items, items.len() - 1));
                } else {
                    let position = choose|position: int| #[trigger]
                        is_last_of_name(before, position) && before[position] == item;
                    assert forall|later: int| position < later < items.len() implies (
                    #[trigger] items[later]).0@ != items[position].0@ by {
                        if later < before.len() {
                            assert(before[later].0@ != before[position].0@);
                        }
                    }
                    assert(is_last_of_name(items, position));
                }
            }
            if exists|position: int| #[trigger]
                is_last_of_name(items, position) && items[position] == item {
                let position = choose|position: int| #[trigger]
                    is_last_of_name(items, position) && items[position] == item;
                if position < before.len() {
                    assert(items[items.len() - 1].0@ != items[position].0@);
                    assert forall|later: int| position < later < before.len() implies (
                    #[trigger] before[later]).0@ != before[position].0@ by {
                        assert(items[later].0@ != items[position].0@);
                    }
                    assert(is_last_of_name(before, position) && before[position] == item);
                    assert(by_name(before).contains(item));
                }
            }
        }
    }
}

/// Items whose names ascend already stay as they are.
pub proof fn law_ordered_items_stay<T>(items: Seq<(String, T)>)
    requires
        names_ascend(items),
    ensures
        by_name(items) == items,
    decreases items.len(),
{
    if items.len() > 0 {
        let before = items.drop_last();
        assert forall|i: int, j: int| 0 <= i < j < before.len() implies name_precedes(
            (#[trigger] before[i]).0@,
            (#[trigger] before[j]).0@,
        ) by {
            assert(name_precedes(items[i].0@, items[j].0@));
        }
        law_ordered_items_stay(before);
        assert forall|i: int| 0 <= i < before.len() implies name_precedes(
            (#[trigger] before[i]).0@,
            items.last().0@,
        ) by {
            assert(name_precedes(items[i].0@, items[items.len() - 1].0@));
        }
        lemma_placed_behind(before, items.last(), before.len() as int);
        assert(before.take(before.len() as int) + with_item(
            before.skip(before.len() as int),
            items.last(),
        ) =~= items);
    }
}

proof fn lemma_placed_behind<T>(items: Seq<(String, T)>, item: (String, T), place: int)
    requires
        0 <= place <= items.len(),
        forall|i: int| 0 <= i < place ==> name_precedes((#[trigger] items[i]).0@, item.0@),
    ensures
        with_item(items, item) == items.take(place) + with_item(items.skip(place), item),
    decreases place,
{
    if place == 0 {
        assert(items.take(0) + with_item(items.skip(0), item) =~= with_item(items, item)) by {
            assert(items.skip(0) =~= items);
        }
    } else {
        let rest = items.drop_first();
        assert(name_precedes(items[0].0@, item.0@));
        assert forall|i: int| 0 <= i < place - 1 implies name_precedes(
            (#[trigger] rest[i]).0@,
            item.0@,
        ) by {
            assert(name_precedes(items[i + 1].0@, item.0@));
        }
        lemma_placed_behind(rest, item, place - 1);
        assert(rest.skip(place - 1) =~= items.skip(place));
        assert(seq![items[0]] + rest.take(place - 1) =~= items.take(place));
        assert(with_item(items, item) =~= items.take(place) + with_item(items.skip(place), item));
    }
}

fn put_item<T>(items: &mut Vec<(String, T)>, item: (String, T))
    ensures
        final(items)@ == with_item(old(items)@, item),
{
    let mut place: usize = 0;
    while place < items.len() && text_precedes(items[place].0.as_str(), item.0.as_str())
        invariant
            place <= items@.len(),
            forall|i: int| 0 <= i < place ==> name_precedes((#[trigger] items@[i]).0@, item.0@),
        decreases items@.len() - place,
    {
        place = place + 1;
    }
    let ghost before = items@;
    proof {
        lemma_placed_behind(before, item, place as int);
    }
    if place < items.len() && items[place].0 == item.0 {
        items[place] = item;
        assert(items@ =~= before.take(place as int) + (seq![item] + before.skip(
            place as int,
        ).drop_first()));
    } else {
        items.insert(place, item);
        proof {
            if place < before.len() {
                assert(items@ =~= before.take(place as int) + (seq![item] + before.skip(
                    place as int,
                )));
            } else {
                assert(items@ =~= before.take(place as int) + seq![item]);
            }
        }
    }
}

/// Puts named items in the order of their names.
pub fn in_name_order<T>(items: Vec<(String, T)>) -> (ordered: Vec<(String, T)>)
    ensures
        ordered@ == by_name(items@),
{
    let ghost all = items@;
    let mut ordered: Vec<(String, T)> = Vec::new();
    assert(all.take(0) =~= Seq::empty());
    for item in iter: items
        invariant
            iter.seq() == all,
            ordered@ == by_name(all.take(iter.index() as int)),
    {
        proof {
            let at = iter.index() as int;
            assert(all.take(at + 1).drop_last() =~= all.take(at));
            assert(all.take(at + 1).last() == all[at]);
        }
        put_item(&mut ordered, item);
    }
    assert(all.take(all.len() as int) =~= all);
    ordered
}

/// Names are ordered by the bytes of their text, the smaller byte first.
pub proof fn law_names_are_ordered_by_their_bytes(left: Seq<char>, right: Seq<char>)
    ensures
        name_precedes(left, right) <==> crate::migrations::keys::key_precedes(
            vstd::utf8::encode_utf8(left),
            vstd::utf8::encode_utf8(right),
        ),
{
}

} // verus!
