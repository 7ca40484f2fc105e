//! Stable ranking: largest key first, ties in the order given.

use vstd::prelude::*;

verus! {

/// Whether position `a` of `keys` ranks before position `b`: a larger key
/// first, and on equal keys the earlier position.
pub open spec fn precedes(keys: Seq<u64>, a: int, b: int) -> bool {
    keys[a] > keys[b] || (keys[a] == keys[b] && a < b)
}

/// Whether `order` lists position `k`.
pub open spec fn lists(order: Seq<usize>, k: int) -> bool {
    exists|i: int| 0 <= i < order.len() && order[i] == k
}

/// `order` lists every position of `keys` exactly once, in ranking order.
pub open spec fn is_ranking(keys: Seq<u64>, order: Seq<usize>) -> bool {
    &&& order.len() == keys.len()
    &&& forall|i: int| 0 <= i < order.len() ==> #[trigger] order[i] < keys.len()
    &&& forall|i: int, j: int|
        0 <= i < j < order.len() ==> precedes(keys, #[trigger] order[i] as int, #[trigger] order[j] as int)
    &&& forall|k: int| 0 <= k < keys.len() ==> #[trigger] lists(order, k)
}

/// Sum of the keys.
pub open spec fn key_sum(keys: Seq<u64>) -> nat
    decreases keys.len(),
{
    if keys.len() == 0 {
        0
    } else {
        key_sum(keys.drop_last()) + keys.last() as nat
    }
}

/// The keys in the order given by `order`.
pub open spec fn ordered_keys(keys: Seq<u64>, order: Seq<usize>) -> Seq<u64> {
    order.map_values(|k: usize| keys[k as int])
}

/// Inserting a key anywhere adds it to the sum.
pub proof fn lemma_key_sum_insert(keys: Seq<u64>, p: int, x: u64)
    requires
        0 <= p <= keys.len(),
    ensures
        key_sum(keys.insert(p, x)) == key_sum(keys) + x,
    decreases keys.len(),
{
    if p == keys.len() {
        assert(keys.insert(p, x).drop_last() =~= keys);
    } else {
        assert(keys.insert(p, x).drop_last() =~= keys.drop_last().insert(p, x));
        lemma_key_sum_insert(keys.drop_last(), p, x);
    }
}

/// No key exceeds the sum.
pub proof fn lemma_key_sum_element(keys: Seq<u64>, j: int)
    requires
        0 <= j < keys.len(),
    ensures
        keys[j] <= key_sum(keys),
    decreases keys.len(),
{
    if j < keys.len() - 1 {
        lemma_key_sum_element(keys.drop_last(), j);
    }
}

/// Replacing a key changes the sum by the difference.
pub proof fn lemma_key_sum_update(keys: Seq<u64>, j: int, v: u64)
    requires
        0 <= j < keys.len(),
    ensures
        key_sum(keys.update(j, v)) + keys[j] == key_sum(keys) + v,
    decreases keys.len(),
{
    if j < keys.len() - 1 {
        assert(keys.update(j, v).drop_last() =~= keys.drop_last().update(j, v));
        lemma_key_sum_update(keys.drop_last(), j, v);
    } else {
        assert(keys.update(j, v).drop_last() =~= keys.drop_last());
    }
}

/// Sum of a prefix, one key longer.
pub proof fn lemma_key_sum_take(keys: Seq<u64>, i: int)
    requires
        0 <= i < keys.len(),
    ensures
        key_sum(keys.take(i + 1)) == key_sum(keys.take(i)) + keys[i],
{
    assert(keys.take(i + 1).drop_last() =~= keys.take(i));
}

/// A prefix never sums to more than the whole.
pub proof fn lemma_key_sum_prefix(keys: Seq<u64>, i: int)
    requires
        0 <= i <= keys.len(),
    ensures
        key_sum(keys.take(i)) <= key_sum(keys),
    decreases keys.len(),
{
    if i < keys.len() {
        assert(keys.drop_last().take(i) =~= keys.take(i));
        lemma_key_sum_prefix(keys.drop_last(), i);
    } else {
        assert(keys.take(i) =~= keys);
    }
}

/// Ranks the positions of `keys`: largest key first, ties in position order.
pub fn rank_desc(keys: &Vec<u64>) -> (order: Vec<usize>)
    ensures
        is_ranking(keys@, order@),
        key_sum(ordered_keys(keys@, order@)) == key_sum(keys@),
{
    let mut order: Vec<usize> = Vec::new();
    let mut i: usize = 0;
    while i < keys.len()
        invariant
            i <= keys.len(),
            order.len() == i,
            forall|q: int| 0 <= q < order.len() ==> #[trigger] order[q] < i,
            forall|a: int, b: int|
                0 <= a < b < order.len() ==> precedes(keys@, #[trigger] order[a] as int, #[trigger] order[b] as int),
            forall|k: int| 0 <= k < i ==> #[trigger] lists(order@, k),
            key_sum(ordered_keys(keys@, order@)) == key_sum(keys@.take(i as int)),
        decreases keys.len() - i,
    {
        let key = keys[i];
        let mut p: usize = 0;
        while p < order.len() && keys[order[p]] >= key
            invariant
                i < keys.len(),
                key == keys[i as int],
                p <= order.len(),
                order.len() == i,
                forall|q: int| 0 <= q < order.len() ==> #[trigger] order[q] < i,
                forall|q: int| 0 <= q < p ==> keys[#[trigger] order[q] as int] >= key,
            decreases order.len() - p,
        {
            p += 1;
        }
        let ghost old_order = order@;
        order.insert(p, i);
        proof {
            old_order.insert_ensures(p as int, i);
            let new_order = order@;
            assert forall|a: int, b: int| 0 <= a < b < new_order.len() implies precedes(
                keys@,
                #[trigger] new_order[a] as int,
                #[trigger] new_order[b] as int,
            ) by {
                if b < p {
                } else if b == p {
                    assert(keys@[old_order[a] as int] >= key);
                } else if a < p {
                    assert(new_order[b] == old_order[b - 1]);
                } else if a == p {
                    assert(new_order[b] == old_order[b - 1]);
                    if b - 1 > p {
                        assert(precedes(keys@, old_order[p as int] as int, old_order[b - 1] as int));
                    }
                } else {
                    assert(new_order[a] == old_order[a - 1]);
                    assert(new_order[b] == old_order[b - 1]);
                }
            }
            assert forall|k: int| 0 <= k < i + 1 implies #[trigger] lists(new_order, k) by {
                if k == i {
                    assert(new_order[p as int] == k);
                } else {
                    assert(lists(old_order, k));
                    let q = choose|q: int| 0 <= q < old_order.len() && old_order[q] == k;
                    if q < p {
                        assert(new_order[q] == k);
                    } else {
                        assert(new_order[q + 1] == k);
                    }
                }
            }
            assert(ordered_keys(keys@, new_order) =~= ordered_keys(keys@, old_order).insert(
                p as int,
                key,
            ));
            lemma_key_sum_insert(ordered_keys(keys@, old_order), p as int, key);
            assert(keys@.take(i + 1).drop_last() =~= keys@.take(i as int));
        }
        i += 1;
    }
    assert(keys@.take(i as int) =~= keys@);
    order
}

} // verus!
