//! Nearest-rank percentile estimation over a bounded window of the raw
//! latency history. Percentiles are defined only once the history holds more
//! than `MIN_PERCENTILE_SAMPLES` values; the window keeps sort cost bounded.

use crate::order::{le_u64, lemma_sorted_of_ensures, sorted_of, sorted_suffix};
use vstd::arithmetic::div_mod::{lemma_div_is_ordered, lemma_div_pos_is_pos};
use vstd::arithmetic::mul::lemma_mul_inequality;
use vstd::prelude::*;

verus! {

/// Percentiles stay undefined until the raw history holds more samples.
pub const MIN_PERCENTILE_SAMPLES: usize = 10;

/// At most this many of the most recent raw samples enter a recalculation.
pub const PERCENTILE_WINDOW: usize = 100000;

/// The most recent at-most-`PERCENTILE_WINDOW` samples of the history.
pub open spec fn window_of(s: Seq<u64>) -> Seq<u64> {
    if s.len() > PERCENTILE_WINDOW {
        s.subrange(s.len() - PERCENTILE_WINDOW, s.len() as int)
    } else {
        s
    }
}

/// Nearest-rank position of the q-th percentile in an ascending sequence of
/// length `len`: `round((len - 1) * q / 100)`, rounding half away from zero.
pub open spec fn rank_index(len: int, q: int) -> int {
    ((len - 1) * q + 50) / 100
}

/// The q-th percentile of a history: the nearest-rank element of the
/// ascending reordering of the window.
pub open spec fn percentile_of(s: Seq<u64>, q: int) -> u64 {
    sorted_of(window_of(s))[rank_index(window_of(s).len() as int, q)]
}

pub proof fn lemma_rank_index_in_range(len: int, q: int)
    requires
        1 <= len,
        0 <= q <= 99,
    ensures
        0 <= rank_index(len, q) < len,
{
    lemma_mul_inequality(q, 99, len - 1);
    assert((len - 1) * q == q * (len - 1)) by (nonlinear_arith);
    assert((len - 1) * 99 == 99 * (len - 1)) by (nonlinear_arith);
    assert((len - 1) * q + 50 <= (len - 1) * 99 + 50);
    assert((len - 1) * 99 + 50 < len * 100) by (nonlinear_arith)
        requires
            1 <= len,
    ;
    lemma_div_pos_is_pos((len - 1) * q + 50, 100);
    lemma_div_is_ordered((len - 1) * q + 50, (len - 1) * 99 + 50, 100);
    assert(((len - 1) * 99 + 50) / 100 <= len - 1) by {
        vstd::arithmetic::div_mod::lemma_multiply_divide_lt((len - 1) * 99 + 50, 100, len);
    }
}

pub proof fn lemma_rank_index_monotonic(len: int, q1: int, q2: int)
    requires
        1 <= len,
        0 <= q1 <= q2 <= 99,
    ensures
        rank_index(len, q1) <= rank_index(len, q2),
{
    lemma_mul_inequality(q1, q2, len - 1);
    assert((len - 1) * q1 == q1 * (len - 1)) by (nonlinear_arith);
    assert((len - 1) * q2 == q2 * (len - 1)) by (nonlinear_arith);
    lemma_div_is_ordered((len - 1) * q1 + 50, (len - 1) * q2 + 50, 100);
}

/// Percentiles of one history never cross: a lower percentile reads an
/// earlier position of the same ascending sequence.
pub proof fn lemma_percentiles_ordered(s: Seq<u64>, q1: int, q2: int)
    requires
        s.len() > MIN_PERCENTILE_SAMPLES,
        0 <= q1 <= q2 <= 99,
    ensures
        percentile_of(s, q1) <= percentile_of(s, q2),
{
    let w = window_of(s);
    lemma_sorted_of_ensures(w);
    lemma_rank_index_in_range(w.len() as int, q1);
    lemma_rank_index_in_range(w.len() as int, q2);
    lemma_rank_index_monotonic(w.len() as int, q1, q2);
    let i1 = rank_index(w.len() as int, q1);
    let i2 = rank_index(w.len() as int, q2);
    if i1 < i2 {
        assert(le_u64()(sorted_of(w)[i1], sorted_of(w)[i2]));
    }
}

/// Computes the 25th, 75th and 99th percentile of the suffix of `history`
/// that starts at `start`.
pub fn percentile_triple(history: &Vec<u64>, start: usize) -> (r: (u64, u64, u64))
    requires
        start <= history.len(),
        history@.len() - start > MIN_PERCENTILE_SAMPLES,
        history@.len() - start <= PERCENTILE_WINDOW,
    ensures
        ({
            let w = history@.subrange(start as int, history@.len() as int);
            &&& r.0 == sorted_of(w)[rank_index(w.len() as int, 25)]
            &&& r.1 == sorted_of(w)[rank_index(w.len() as int, 75)]
            &&& r.2 == sorted_of(w)[rank_index(w.len() as int, 99)]
        }),
{
    let sorted = sorted_suffix(history, start);
    let n = sorted.len();
    proof {
        lemma_rank_index_in_range(n as int, 25);
        lemma_rank_index_in_range(n as int, 75);
        lemma_rank_index_in_range(n as int, 99);
    }
    let max_idx = n - 1;
    let i25 = (max_idx * 25 + 50) / 100;
    let i75 = (max_idx * 75 + 50) / 100;
    let i99 = (max_idx * 99 + 50) / 100;
    (sorted[i25], sorted[i75], sorted[i99])
}

} // verus!
