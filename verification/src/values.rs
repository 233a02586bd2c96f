//! Arithmetic over job values: prefix sums, the aggregate total, and the
//! prefix-bracketing pick that all three selection strategies share.

use vstd::prelude::*;

verus! {

/// The sum of the first `n` values (all of the sequence when `n` is its
/// length).
pub open spec fn prefix_sum(values: Seq<u64>, n: int) -> int
    decreases n,
{
    if n <= 0 {
        0
    } else {
        prefix_sum(values, n - 1) + values[n - 1]
    }
}

/// The sum of all values of the sequence.
pub open spec fn seq_sum(values: Seq<u64>) -> int {
    prefix_sum(values, values.len() as int)
}

/// Prefix sums never decrease as the prefix grows.
pub proof fn lemma_prefix_sum_mono(values: Seq<u64>, i: int, j: int)
    requires
        0 <= i <= j,
    ensures
        prefix_sum(values, i) <= prefix_sum(values, j),
    decreases j - i,
{
    if i < j {
        lemma_prefix_sum_mono(values, i, j - 1);
    }
}

/// Whether index `j` is the position that the prefix-bracketing pick selects
/// for the draw `r`: the values before `j` together stay at or below `r`, and
/// adding `values[j]` passes it. Under `Linear`, `r` is the step cursor;
/// under `Interleave`, the cursor modulo the chunk-cycle length; under
/// `Random`, the random draw modulo the total weight.
pub open spec fn is_picked(values: Seq<u64>, r: int, j: int) -> bool {
    &&& 0 <= j < values.len()
    &&& prefix_sum(values, j) <= r
    &&& r < prefix_sum(values, j + 1)
}

/// Law: at most one index is picked for a given position. Together with the
/// scheduler's dispatch contract this makes the order in which jobs are
/// issued a function of the strategy's positions alone.
pub proof fn lemma_picked_unique(values: Seq<u64>, r: int, j1: int, j2: int)
    requires
        is_picked(values, r, j1),
        is_picked(values, r, j2),
    ensures
        j1 == j2,
{
    if j1 < j2 {
        lemma_prefix_sum_mono(values, j1 + 1, j2);
    }
    if j2 < j1 {
        lemma_prefix_sum_mono(values, j2 + 1, j1);
    }
}

/// The prefix-bracketing pick: walks the values accumulating their prefix sum
/// and returns the first index whose value carries the sum past `r`.
pub fn pick_index(values: &Vec<u64>, r: u64) -> (idx: usize)
    requires
        r < seq_sum(values@),
        seq_sum(values@) <= u64::MAX,
    ensures
        is_picked(values@, r as int, idx as int),
{
    let mut acc: u64 = 0;
    let mut j: usize = 0;
    while j < values.len()
        invariant
            0 <= j <= values.len(),
            acc == prefix_sum(values@, j as int),
            acc <= r,
            r < seq_sum(values@),
            seq_sum(values@) <= u64::MAX,
        decreases values.len() - j,
    {
        let v = values[j];
        proof {
            lemma_prefix_sum_mono(values@, j + 1, values@.len() as int);
        }
        if r - acc < v {
            return j;
        }
        acc = acc + v;
        j = j + 1;
    }
    proof {
        assert(acc == seq_sum(values@));
        assert(false);
    }
    0
}

} // verus!
