//! The stable ascending order of a list of quantities.
use crate::scalar::Scalar;
use vstd::prelude::*;

verus! {

/// `a` is sorted strictly before `b`: as numbers `a < b`, or `a` is a
/// number and `b` is a not-a-number. Not-a-numbers go last, and none of
/// them is sorted before another.
pub open spec fn sorts_before(a: Scalar, b: Scalar) -> bool {
    if a.is_nan() {
        false
    } else if b.is_nan() {
        true
    } else {
        a.lt(b)
    }
}

/// In a stable ascending order of `keys`, position `a` comes before
/// position `b`: its key is sorted before the other, or neither key is
/// sorted before the other and `a` stood first.
pub open spec fn precedes(keys: Seq<Scalar>, a: int, b: int) -> bool {
    sorts_before(keys[a], keys[b]) || (!sorts_before(keys[b], keys[a]) && a < b)
}

/// `order` lists every position of `keys` once, in stable ascending order.
pub open spec fn is_stable_order(keys: Seq<Scalar>, order: Seq<usize>) -> bool {
    &&& order.len() == keys.len()
    &&& forall|k: int| 0 <= k < order.len() ==> (#[trigger] order[k]) < keys.len()
    &&& forall|a: int, b: int|
        0 <= a < b < order.len() ==> precedes(keys, #[trigger] order[a] as int, #[trigger] order[b] as int)
}

/// Whether `a` is sorted strictly before `b`.
pub fn is_sorted_before(a: Scalar, b: Scalar) -> (r: bool)
    ensures
        r == sorts_before(a, b),
{
    if a.is_nan() {
        false
    } else if b.is_nan() {
        true
    } else {
        a.lt(b)
    }
}

/// The positions of `keys` in stable ascending order.
pub fn stable_order(keys: &Vec<Scalar>) -> (order: Vec<usize>)
    ensures
        is_stable_order(keys@, order@),
{
    let mut order: Vec<usize> = Vec::new();
    let mut i: usize = 0;
    while i < keys.len()
        invariant
            i <= keys.len(),
            order@.len() == i,
            forall|k: int| 0 <= k < order@.len() ==> (#[trigger] order@[k]) < i,
            forall|a: int, b: int|
                0 <= a < b < order@.len() ==> precedes(
                    keys@,
                    #[trigger] order@[a] as int,
                    #[trigger] order@[b] as int,
                ),
        decreases keys.len() - i,
    {
        let key = keys[i];
        let mut p: usize = 0;
        while p < order.len() && !is_sorted_before(key, keys[order[p]])
            invariant
                i < keys.len(),
                key == keys@[i as int],
                p <= order@.len(),
                order@.len() == i,
                forall|k: int| 0 <= k < order@.len() ==> (#[trigger] order@[k]) < i,
                forall|k: int| 0 <= k < p ==> !sorts_before(key, keys@[(#[trigger] order@[k]) as int]),
            decreases order@.len() - p,
        {
            p += 1;
        }
        let ghost before = order@;
        order.insert(p, i);
        proof {
            assert(order@ == before.insert(p as int, i));
            assert forall|a: int, b: int| 0 <= a < b < order@.len() implies precedes(
                keys@,
                #[trigger] order@[a] as int,
                #[trigger] order@[b] as int,
            ) by {
                if b < p {
                    assert(order@[a] == before[a] && order@[b] == before[b]);
                } else if b == p {
                    assert(order@[a] == before[a]);
                } else if a < p {
                    assert(order@[a] == before[a] && order@[b] == before[b - 1]);
                } else if a == p {
                    assert(order@[b] == before[b - 1]);
                    if b - 1 > p {
                        assert(precedes(keys@, before[p as int] as int, before[b - 1] as int));
                    }
                } else {
                    assert(order@[a] == before[a - 1] && order@[b] == before[b - 1]);
                }
            }
        }
        i += 1;
    }
    order
}

/// The entries of an order as integers.
pub open spec fn positions(order: Seq<usize>) -> Seq<int> {
    Seq::new(order.len(), |k: int| order[k] as int)
}

/// The positions of `keys` that come before position `x` in a stable
/// ascending order.
pub open spec fn predecessors(keys: Seq<Scalar>, x: int) -> Set<int> {
    Set::new(|y: int| 0 <= y < keys.len() && precedes(keys, y, x))
}

/// A stable order names no position twice.
pub proof fn lemma_stable_order_distinct(keys: Seq<Scalar>, order: Seq<usize>)
    requires
        is_stable_order(keys, order),
    ensures
        positions(order).no_duplicates(),
{
    let image = positions(order);
    assert forall|a: int, b: int| 0 <= a < image.len() && 0 <= b < image.len() && a != b implies image[a]
        != image[b] by {
        if a < b {
            assert(precedes(keys, order[a] as int, order[b] as int));
        } else {
            assert(precedes(keys, order[b] as int, order[a] as int));
        }
    }
}

/// A stable order names every position.
pub proof fn lemma_stable_order_complete(keys: Seq<Scalar>, order: Seq<usize>)
    requires
        is_stable_order(keys, order),
    ensures
        forall|y: int| 0 <= y < keys.len() ==> #[trigger] positions(order).contains(y),
{
    let image = positions(order);
    let all = vstd::set_lib::set_int_range(0, keys.len() as int);
    lemma_stable_order_distinct(keys, order);
    image.unique_seq_to_set();
    vstd::seq_lib::seq_to_set_is_finite(image);
    vstd::set_lib::lemma_int_range(0, keys.len() as int);
    assert(image.to_set().subset_of(all)) by {
        assert forall|y: int| image.to_set().contains(y) implies all.contains(y) by {
            let a = choose|a: int| 0 <= a < image.len() && image[a] == y;
            assert(order[a] < keys.len());
        }
    }
    vstd::set_lib::lemma_subset_equality(image.to_set(), all);
    assert forall|y: int| 0 <= y < keys.len() implies #[trigger] image.contains(y) by {
        assert(all.contains(y));
        assert(image.to_set().contains(y));
    }
}

/// In a stable order the entry at place `k` has exactly the `k` entries
/// before it as predecessors.
proof fn lemma_rank_is_place(keys: Seq<Scalar>, order: Seq<usize>, k: int)
    requires
        is_stable_order(keys, order),
        0 <= k < order.len(),
    ensures
        predecessors(keys, order[k] as int).finite(),
        predecessors(keys, order[k] as int).len() == k,
{
    let image = positions(order);
    let prefix = image.take(k);
    let before = predecessors(keys, order[k] as int);
    lemma_stable_order_distinct(keys, order);
    lemma_stable_order_complete(keys, order);
    assert forall|y: int| before.contains(y) implies prefix.to_set().contains(y) by {
        assert(image.contains(y));
        let a = choose|a: int| 0 <= a < image.len() && image[a] == y;
        if a > k {
            assert(precedes(keys, order[k] as int, order[a] as int));
        }
        assert(prefix[a] == y);
    }
    assert forall|y: int| prefix.to_set().contains(y) implies before.contains(y) by {
        let a = choose|a: int| 0 <= a < prefix.len() && prefix[a] == y;
        assert(image[a] == y);
        assert(precedes(keys, order[a] as int, order[k] as int));
    }
    assert(before =~= prefix.to_set());
    assert(prefix.no_duplicates());
    prefix.unique_seq_to_set();
    vstd::seq_lib::seq_to_set_is_finite(prefix);
}

/// A position has fewer predecessors than one that it precedes.
proof fn lemma_fewer_predecessors(keys: Seq<Scalar>, x: int, y: int)
    requires
        0 <= x < keys.len(),
        0 <= y < keys.len(),
        precedes(keys, x, y),
        predecessors(keys, x).finite(),
        predecessors(keys, y).finite(),
    ensures
        predecessors(keys, x).len() < predecessors(keys, y).len(),
{
    let px = predecessors(keys, x);
    let py = predecessors(keys, y);
    assert(px.insert(x).subset_of(py)) by {
        assert forall|w: int| px.insert(x).contains(w) implies py.contains(w) by {
            if w != x {
                assert(precedes(keys, w, x));
            }
        }
    }
    assert(!px.contains(x));
    vstd::set_lib::lemma_len_subset(px.insert(x), py);
}

/// The stable order of a list is unique.
pub proof fn lemma_stable_order_unique(keys: Seq<Scalar>, first: Seq<usize>, second: Seq<usize>)
    requires
        is_stable_order(keys, first),
        is_stable_order(keys, second),
    ensures
        first == second,
{
    assert forall|k: int| 0 <= k < first.len() implies first[k] == second[k] by {
        let x = first[k] as int;
        let y = second[k] as int;
        lemma_rank_is_place(keys, first, k);
        lemma_rank_is_place(keys, second, k);
        if x != y {
            if precedes(keys, x, y) {
                lemma_fewer_predecessors(keys, x, y);
            } else {
                assert(precedes(keys, y, x));
                lemma_fewer_predecessors(keys, y, x);
            }
        }
    }
    assert(first =~= second);
}

} // verus!
