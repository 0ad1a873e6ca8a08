//! Sorting support for percentile estimation: a verified insertion sort over
//! latency values, pinned to the unique ascending reordering of its input.

use vstd::prelude::*;
use vstd::relations::sorted_by;
use vstd::seq_lib::lemma_sorted_unique;

verus! {

/// The ascending order on latency values.
pub open spec fn le_u64() -> spec_fn(u64, u64) -> bool {
    |a: u64, b: u64| a <= b
}

/// The ascending reordering of a sequence of latency values.
pub open spec fn sorted_of(s: Seq<u64>) -> Seq<u64> {
    s.sort_by(le_u64())
}

/// Basic shape of `sorted_of`: same length, ascending, same multiset.
pub proof fn lemma_sorted_of_ensures(s: Seq<u64>)
    ensures
        sorted_of(s).len() == s.len(),
        sorted_by(sorted_of(s), le_u64()),
        sorted_of(s).to_multiset() == s.to_multiset(),
{
    s.lemma_sort_by_ensures(le_u64());
    vstd::seq_lib::to_multiset_len(s);
    vstd::seq_lib::to_multiset_len(sorted_of(s));
}

/// Copies the suffix of `src` that begins at `start` and returns it in
/// ascending order, by inserting each element at its sorted position.
pub fn sorted_suffix(src: &Vec<u64>, start: usize) -> (r: Vec<u64>)
    requires
        start <= src.len(),
    ensures
        r@ == sorted_of(src@.subrange(start as int, src@.len() as int)),
        r@.len() == src@.len() - start,
{
    broadcast use vstd::seq_lib::group_to_multiset_ensures;

    let ghost tail = src@.subrange(start as int, src@.len() as int);
    let mut r: Vec<u64> = Vec::new();
    proof {
        assert(src@.subrange(start as int, start as int) =~= Seq::<u64>::empty());
        assert(Seq::<u64>::empty().to_multiset() =~= r@.to_multiset());
    }
    let mut i: usize = start;
    while i < src.len()
        invariant
            start <= i <= src.len(),
            sorted_by(r@, le_u64()),
            r@.to_multiset() == src@.subrange(start as int, i as int).to_multiset(),
            r@.len() == i - start,
        decreases src.len() - i,
    {
        let x = src[i];
        let mut j: usize = 0;
        while j < r.len() && r[j] <= x
            invariant
                j <= r.len(),
                forall|k: int| 0 <= k < j ==> r@[k] <= x,
            decreases r.len() - j,
        {
            j += 1;
        }
        assert(j == r.len() || r@[j as int] > x);
        let ghost r_old = r@;
        r.insert(j, x);
        proof {
            r_old.insert_ensures(j as int, x);
            assert(r@ == r_old.insert(j as int, x));
            assert(sorted_by(r@, le_u64())) by {
                assert forall|k1: int, k2: int| 0 <= k1 < k2 < r@.len() implies le_u64()(
                    r@[k1],
                    r@[k2],
                ) by {
                    if k2 < j {
                        assert(r@[k1] == r_old[k1] && r@[k2] == r_old[k2]);
                        assert(le_u64()(r_old[k1], r_old[k2]));
                    } else if k1 < j && k2 == j {
                        assert(r@[k1] == r_old[k1] && r@[k2] == x);
                    } else if k1 < j && k2 > j {
                        assert(r@[k1] == r_old[k1] && r@[k2] == r_old[k2 - 1]);
                        if k2 - 1 > j {
                            assert(le_u64()(r_old[j as int], r_old[k2 - 1]));
                        }
                        assert(le_u64()(r_old[k1], x));
                    } else if k1 == j {
                        assert(r@[k1] == x && r@[k2] == r_old[k2 - 1]);
                        if k2 - 1 > j {
                            assert(le_u64()(r_old[j as int], r_old[k2 - 1]));
                        }
                    } else {
                        assert(r@[k1] == r_old[k1 - 1] && r@[k2] == r_old[k2 - 1]);
                        assert(le_u64()(r_old[k1 - 1], r_old[k2 - 1]));
                    }
                }
            }
            vstd::seq_lib::to_multiset_insert(r_old, j as int, x);
            assert(src@.subrange(start as int, i + 1) =~= src@.subrange(
                start as int,
                i as int,
            ).push(src@[i as int]));
            vstd::seq_lib::to_multiset_build(src@.subrange(start as int, i as int), src@[i as int]);
            assert(r@.to_multiset() =~= src@.subrange(start as int, i + 1).to_multiset());
        }
        i += 1;
    }
    proof {
        assert(src@.subrange(start as int, i as int) =~= tail);
        tail.lemma_sort_by_ensures(le_u64());
        lemma_sorted_unique(r@, sorted_of(tail), le_u64());
        assert(r@ =~= sorted_of(tail));
    }
    r
}

} // verus!
