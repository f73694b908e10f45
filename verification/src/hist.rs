//! The arity histogram as a mathematical object.
//!
//! A histogram is a sequence of counts indexed by parameter count. These
//! spec functions read a cell (zero beyond the stored length), sum a range
//! of cells, and say which index is the modal arity: the first index whose
//! count reaches the maximum.

use vstd::prelude::*;

verus! {

/// The count stored at index `k`; zero beyond the stored length.
pub open spec fn hist_at(h: Seq<usize>, k: int) -> int {
    if 0 <= k < h.len() {
        h[k] as int
    } else {
        0
    }
}

/// The sum of the cells `h[lo] + ... + h[n - 1]` (zero when the range is
/// empty).
pub open spec fn sum_range(h: Seq<usize>, lo: int, n: int) -> int
    decreases n - lo,
{
    if n <= lo {
        0
    } else {
        sum_range(h, lo, n - 1) + h[n - 1]
    }
}

/// The sum of all cells: how many functions the histogram has recorded.
pub open spec fn hist_total(h: Seq<usize>) -> int {
    sum_range(h, 0, h.len() as int)
}

/// How many recorded functions have four or more parameters.
pub open spec fn hist_four_or_more(h: Seq<usize>) -> int {
    sum_range(h, 4, h.len() as int)
}

/// `m` is the modal arity of `h`: every cell is at most `h[m]`, and every
/// cell before `m` is strictly below it, so `m` is the first index at which
/// the maximum count is reached.
pub open spec fn is_first_modal(h: Seq<usize>, m: int) -> bool {
    &&& 0 <= m < h.len()
    &&& forall|j: int| 0 <= j < h.len() ==> h[j] <= h[m]
    &&& forall|j: int| 0 <= j < m ==> h[j] < h[m]
}

/// A sum of cells is never negative.
pub proof fn lemma_sum_range_nonneg(h: Seq<usize>, lo: int, n: int)
    ensures
        0 <= sum_range(h, lo, n),
    decreases n - lo,
{
    if n > lo {
        lemma_sum_range_nonneg(h, lo, n - 1);
    }
}

/// Widening the summed range never shrinks the sum.
pub proof fn lemma_sum_range_monotone(h: Seq<usize>, lo: int, n1: int, n2: int)
    requires
        n1 <= n2,
        0 <= lo,
    ensures
        sum_range(h, lo, n1) <= sum_range(h, lo, n2),
    decreases n2 - n1,
{
    if n1 < n2 {
        lemma_sum_range_monotone(h, lo, n1, n2 - 1);
    }
}

/// Raising the lower end of the summed range never grows the sum.
pub proof fn lemma_sum_range_widen_lo(h: Seq<usize>, lo1: int, lo2: int, n: int)
    requires
        0 <= lo1 <= lo2,
    ensures
        sum_range(h, lo2, n) <= sum_range(h, lo1, n),
    decreases n - lo1,
{
    if n <= lo2 {
        lemma_sum_range_nonneg(h, lo1, n);
    } else {
        lemma_sum_range_widen_lo(h, lo1, lo2, n - 1);
    }
}

/// A single cell inside the summed range is at most the sum.
pub proof fn lemma_sum_range_elem(h: Seq<usize>, lo: int, n: int, k: int)
    requires
        lo <= k < n <= h.len(),
    ensures
        h[k] <= sum_range(h, lo, n),
    decreases n - lo,
{
    if k == n - 1 {
        lemma_sum_range_nonneg(h, lo, n - 1);
    } else {
        lemma_sum_range_elem(h, lo, n - 1, k);
    }
}

/// Replacing the cell at `i` moves a sum by the difference at `i`, and only
/// when `i` lies in the summed range.
pub proof fn lemma_sum_range_update(h: Seq<usize>, i: int, v: usize, lo: int, n: int)
    requires
        0 <= lo,
        0 <= i < h.len(),
        n <= h.len(),
    ensures
        sum_range(h.update(i, v), lo, n) == sum_range(h, lo, n) + (if lo <= i < n {
            v - h[i]
        } else {
            0
        }),
    decreases n - lo,
{
    if n > lo {
        lemma_sum_range_update(h, i, v, lo, n - 1);
    }
}

/// A sum over the old range is unchanged by appending a cell.
pub proof fn lemma_sum_range_push(h: Seq<usize>, x: usize, lo: int, n: int)
    requires
        0 <= lo,
        n <= h.len(),
    ensures
        sum_range(h.push(x), lo, n) == sum_range(h, lo, n),
    decreases n - lo,
{
    if n > lo {
        lemma_sum_range_push(h, x, lo, n - 1);
    }
}

/// A range of all-zero cells sums to zero, so a positive sum names at least
/// one positive cell.
pub proof fn lemma_sum_range_zero(h: Seq<usize>, lo: int, n: int)
    requires
        0 <= lo,
        forall|j: int| lo <= j < n ==> #[trigger] hist_at(h, j) == 0,
        n <= h.len(),
    ensures
        sum_range(h, lo, n) == 0,
    decreases n - lo,
{
    if n > lo {
        lemma_sum_range_zero(h, lo, n - 1);
        assert(hist_at(h, n - 1) == 0);
    }
}

} // verus!
