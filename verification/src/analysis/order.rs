//! Stable ordering by an integer key.
//!
//! `stable_order` returns the positions of a list of keys in sorted order.
//! Positions with equal keys keep their relative order.

use vstd::prelude::*;

verus! {

/// Whether key `a` has to stand strictly before key `b`.
pub open spec fn goes_before(a: usize, b: usize, descending: bool) -> bool {
    if descending {
        a > b
    } else {
        a < b
    }
}

/// A sorted list of positions with position `at` put in: behind every
/// position whose key does not have to stand behind the key of `at`.
pub open spec fn inserted(order: Seq<usize>, keys: Seq<usize>, at: usize, descending: bool) -> Seq<
    usize,
>
    decreases order.len(),
{
    if order.len() == 0 {
        seq![at]
    } else if goes_before(keys[at as int], keys[order.last() as int], descending) {
        inserted(order.drop_last(), keys, at, descending).push(order.last())
    } else {
        order.push(at)
    }
}

/// The first `count` positions of `keys`, sorted by key, ascending or
/// descending; positions with equal keys stand in the order of the positions.
pub open spec fn stable_order_of(keys: Seq<usize>, count: nat, descending: bool) -> Seq<usize>
    decreases count,
{
    if count == 0 {
        Seq::<usize>::empty()
    } else {
        inserted(
            stable_order_of(keys, (count - 1) as nat, descending),
            keys,
            (count - 1) as usize,
            descending,
        )
    }
}

/// Putting a position in is inserting it at the place that a scan from the
/// end finds.
pub proof fn lemma_inserted_at(
    order: Seq<usize>,
    keys: Seq<usize>,
    at: usize,
    descending: bool,
    place: int,
)
    requires
        0 <= place <= order.len(),
        forall|j: int|
            place <= j < order.len() ==> goes_before(
                keys[at as int],
                keys[#[trigger] order[j] as int],
                descending,
            ),
        place > 0 ==> !goes_before(keys[at as int], keys[order[place - 1] as int], descending),
    ensures
        inserted(order, keys, at, descending) == order.insert(place, at),
    decreases order.len(),
{
    if order.len() == 0 {
        assert(order.insert(place, at) =~= seq![at]);
    } else if place == order.len() {
        assert(order.insert(place, at) =~= order.push(at));
    } else {
        let front = order.drop_last();
        assert(goes_before(keys[at as int], keys[order[order.len() - 1] as int], descending));
        assert forall|j: int| place <= j < front.len() implies goes_before(
            keys[at as int],
            keys[#[trigger] front[j] as int],
            descending,
        ) by {
            assert(front[j] == order[j]);
        }
        if place > 0 {
            assert(front[place - 1] == order[place - 1]);
        }
        lemma_inserted_at(front, keys, at, descending, place);
        assert(front.insert(place, at).push(order.last()) =~= order.insert(place, at));
    }
}

/// The order is a rearrangement of the first `count` positions: it has
/// `count` entries, each below `count`, none twice.
pub proof fn lemma_stable_order_positions(keys: Seq<usize>, count: nat, descending: bool)
    requires
        count <= usize::MAX,
    ensures
        stable_order_of(keys, count, descending).len() == count,
        forall|j: int|
            0 <= j < count ==> (#[trigger] stable_order_of(keys, count, descending)[j]) < count,
        stable_order_of(keys, count, descending).no_duplicates(),
        forall|p: usize| p < count ==> stable_order_of(keys, count, descending).contains(p),
    decreases count,
{
    if count > 0 {
        let before = stable_order_of(keys, (count - 1) as nat, descending);
        let at = (count - 1) as usize;
        lemma_stable_order_positions(keys, (count - 1) as nat, descending);
        lemma_inserted_shape(before, keys, at, descending);
        let out = inserted(before, keys, at, descending);
        let place = choose|place: int|
            is_place(before, keys, at, descending, place) && out == before.insert(place, at);
        assert forall|j: int| 0 <= j < count implies (#[trigger] out[j]) < count by {
            if j < place {
                assert(out[j] == before[j]);
            } else if j > place {
                assert(out[j] == before[j - 1]);
            }
        }
        assert forall|i: int, j: int| 0 <= i < out.len() && 0 <= j < out.len() && i != j implies out[i]
            != out[j] by {
            let a = if i < place {
                i
            } else {
                i - 1
            };
            let b = if j < place {
                j
            } else {
                j - 1
            };
            if i != place && j != place {
                assert(out[i] == before[a]);
                assert(out[j] == before[b]);
            } else if i == place {
                assert(out[j] == before[b]);
            } else {
                assert(out[i] == before[a]);
            }
        }
        assert forall|p: usize| p < count implies out.contains(p) by {
            if p == at {
                assert(out[place] == p);
            } else {
                assert(before.contains(p));
                let k = choose|k: int| 0 <= k < before.len() && before[k] == p;
                if k < place {
                    assert(out[k] == p);
                } else {
                    assert(out[k + 1] == p);
                }
            }
        }
    }
}

/// Whether `place` is where `at` belongs in `order`: every position from
/// `place` on has a key that stands strictly behind the key of `at`, and the
/// position just before `place` has not.
pub open spec fn is_place(
    order: Seq<usize>,
    keys: Seq<usize>,
    at: usize,
    descending: bool,
    place: int,
) -> bool {
    &&& 0 <= place <= order.len()
    &&& forall|j: int|
        place <= j < order.len() ==> goes_before(
            keys[at as int],
            keys[#[trigger] order[j] as int],
            descending,
        )
    &&& place > 0 ==> !goes_before(keys[at as int], keys[order[place - 1] as int], descending)
}

/// Putting a position in inserts it at its place and moves nothing else.
pub proof fn lemma_inserted_shape(order: Seq<usize>, keys: Seq<usize>, at: usize, descending: bool)
    ensures
        exists|place: int|
            is_place(order, keys, at, descending, place) && inserted(order, keys, at, descending)
                == order.insert(place, at),
    decreases order.len(),
{
    if order.len() == 0 {
        assert(order.insert(0, at) =~= seq![at]);
        assert(is_place(order, keys, at, descending, 0));
    } else if goes_before(keys[at as int], keys[order.last() as int], descending) {
        let front = order.drop_last();
        lemma_inserted_shape(front, keys, at, descending);
        let place = choose|place: int|
            is_place(front, keys, at, descending, place) && inserted(front, keys, at, descending)
                == front.insert(place, at);
        assert(front.insert(place, at).push(order.last()) =~= order.insert(place, at));
        assert forall|j: int| place <= j < order.len() implies goes_before(
            keys[at as int],
            keys[#[trigger] order[j] as int],
            descending,
        ) by {
            if j < front.len() {
                assert(front[j] == order[j]);
            }
        }
        if place > 0 {
            assert(front[place - 1] == order[place - 1]);
        }
        assert(is_place(order, keys, at, descending, place));
    } else {
        assert(order.insert(order.len() as int, at) =~= order.push(at));
        assert(is_place(order, keys, at, descending, order.len() as int));
    }
}

/// The order is sorted and stable: of two entries, the earlier one never
/// has a key that belongs strictly behind the later one's, and where their
/// keys are equal, the earlier one is the smaller position.
pub proof fn lemma_stable_order_sorted(keys: Seq<usize>, count: nat, descending: bool)
    requires
        count <= usize::MAX,
    ensures
        forall|a: int, b: int|
            #![trigger stable_order_of(keys, count, descending)[a], stable_order_of(keys, count, descending)[b]]
            0 <= a < b < count ==> {
                let order = stable_order_of(keys, count, descending);
                &&& !goes_before(keys[order[b] as int], keys[order[a] as int], descending)
                &&& keys[order[a] as int] == keys[order[b] as int] ==> order[a] < order[b]
            },
    decreases count,
{
    if count > 0 {
        let before = stable_order_of(keys, (count - 1) as nat, descending);
        let at = (count - 1) as usize;
        lemma_stable_order_sorted(keys, (count - 1) as nat, descending);
        lemma_stable_order_positions(keys, (count - 1) as nat, descending);
        lemma_inserted_shape(before, keys, at, descending);
        let out = stable_order_of(keys, count, descending);
        let place = choose|place: int|
            is_place(before, keys, at, descending, place) && out == before.insert(place, at);
        assert forall|a: int, b: int| #![trigger out[a], out[b]] 0 <= a < b < count implies {
            &&& !goes_before(keys[out[b] as int], keys[out[a] as int], descending)
            &&& keys[out[a] as int] == keys[out[b] as int] ==> out[a] < out[b]
        } by {
            if b < place {
                assert(out[a] == before[a] && out[b] == before[b]);
            } else if a > place {
                assert(out[a] == before[a - 1] && out[b] == before[b - 1]);
            } else if a < place && b > place {
                assert(out[a] == before[a] && out[b] == before[b - 1]);
            } else if b == place {
                assert(out[a] == before[a]);
                assert(out[b] == at);
                if a < place - 1 {
                    assert(!goes_before(
                        keys[before[place - 1] as int],
                        keys[before[a] as int],
                        descending,
                    ));
                }
            } else {
                assert(a == place);
                assert(out[a] == at);
                assert(out[b] == before[b - 1]);
            }
        }
    }
}

/// Whether key `a` has to stand strictly before key `b`.
pub fn key_goes_before(a: usize, b: usize, descending: bool) -> (before: bool)
    ensures
        before == goes_before(a, b, descending),
{
    if descending {
        a > b
    } else {
        a < b
    }
}

/// The positions of `keys` in sorted order, ascending or descending. Equal
/// keys keep their relative order.
pub fn stable_order(keys: &Vec<usize>, descending: bool) -> (order: Vec<usize>)
    ensures
        order@ == stable_order_of(keys@, keys@.len(), descending),
        order@.len() == keys@.len(),
        forall|j: int| 0 <= j < order@.len() ==> (#[trigger] order@[j]) < keys@.len(),
{
    let mut order: Vec<usize> = Vec::new();
    let mut at: usize = 0;
    while at < keys.len()
        invariant
            at <= keys.len(),
            order@ == stable_order_of(keys@, at as nat, descending),
            order@.len() == at,
            forall|j: int| 0 <= j < order@.len() ==> (#[trigger] order@[j]) < at,
        decreases keys.len() - at,
    {
        let key = keys[at];
        let mut place: usize = order.len();
        while place > 0 && key_goes_before(key, keys[order[place - 1]], descending)
            invariant
                place <= order@.len(),
                at < keys.len(),
                key == keys@[at as int],
                forall|j: int| 0 <= j < order@.len() ==> (#[trigger] order@[j]) < at,
                forall|j: int|
                    place <= j < order@.len() ==> goes_before(
                        keys@[at as int],
                        keys@[#[trigger] order@[j] as int],
                        descending,
                    ),
            decreases place,
        {
            place -= 1;
        }
        proof {
            lemma_inserted_at(order@, keys@, at, descending, place as int);
        }
        let ghost before = order@;
        order.insert(place, at);
        proof {
            assert forall|j: int| 0 <= j < order@.len() implies (#[trigger] order@[j]) < at + 1 by {
                if j < place {
                    assert(order@[j] == before[j]);
                } else if j > place {
                    assert(order@[j] == before[j - 1]);
                }
            }
        }
        at += 1;
    }
    order
}

} // verus!
