//! The stats accumulator: mutable state fed by the walker's visit hooks and
//! finalized into a report.

use vstd::prelude::*;
use crate::hist::{hist_at, hist_four_or_more, hist_total, is_first_modal, sum_range,
    lemma_sum_range_elem, lemma_sum_range_monotone, lemma_sum_range_push, lemma_sum_range_update,
    lemma_sum_range_widen_lo, lemma_sum_range_zero};
use crate::report::{report_of_state, Percent, Report, StatsError};
use crate::tree::{arity_count, arity_of, arity_pred, count_node, is_function_item,
    is_macro_match, path_to_string, ItemKind, Node};

verus! {

/// Collects the statistics of one analysis: a histogram of function arities
/// and a count of macro invocations matching the target name. Created empty,
/// fed by the visit hooks during one traversal, consumed by `finalize`.
pub struct StupidVisitor {
    /// Macro invocations seen so far whose rendered path matched the target.
    pub println_count: usize,
    /// `arg_counts[k]` counts the functions seen so far that declare `k`
    /// parameters; the vector grows on demand and never shrinks.
    pub arg_counts: Vec<usize>,
}

impl StupidVisitor {
    /// A fresh accumulator with nothing recorded.
    pub fn new() -> (v: StupidVisitor)
        ensures
            v.println_count == 0,
            v.arg_counts@ == Seq::<usize>::empty(),
    {
        StupidVisitor { println_count: 0, arg_counts: Vec::new() }
    }

    /// Record one function declaring `args` parameters, growing the
    /// histogram with zero-filled cells when `args` is beyond its length.
    pub fn increment_args(&mut self, args: usize)
        requires
            args < usize::MAX,
            hist_total(old(self).arg_counts@) < usize::MAX,
        ensures
            final(self).println_count == old(self).println_count,
            old(self).arg_counts@.len() <= final(self).arg_counts@.len(),
            forall|k: int|
                hist_at(final(self).arg_counts@, k) == hist_at(old(self).arg_counts@, k) + (
                if k == args {
                    1int
                } else {
                    0int
                }),
            hist_total(final(self).arg_counts@) == hist_total(old(self).arg_counts@) + 1,
            hist_four_or_more(final(self).arg_counts@) == hist_four_or_more(
                old(self).arg_counts@,
            ) + (if args >= 4 {
                1int
            } else {
                0int
            }),
    {
        while self.arg_counts.len() <= args
            invariant
                args < usize::MAX,
                self.println_count == old(self).println_count,
                old(self).arg_counts@.len() <= self.arg_counts@.len(),
                forall|k: int|
                    hist_at(self.arg_counts@, k) == hist_at(old(self).arg_counts@, k),
                hist_total(self.arg_counts@) == hist_total(old(self).arg_counts@),
                hist_four_or_more(self.arg_counts@) == hist_four_or_more(old(self).arg_counts@),
            decreases args + 1 - self.arg_counts.len(),
        {
            let ghost h0 = self.arg_counts@;
            self.arg_counts.push(0);
            proof {
                let h1 = self.arg_counts@;
                let n0 = h0.len() as int;
                assert forall|k: int| hist_at(h1, k) == hist_at(h0, k) by {
                    if 0 <= k < n0 {
                        assert(h1[k] == h0[k]);
                    }
                }
                lemma_sum_range_push(h0, 0, 0, n0);
                assert(hist_total(h1) == sum_range(h1, 0, n0) + h1[n0]);
                lemma_sum_range_push(h0, 0, 4, n0);
                if n0 + 1 > 4 {
                    assert(hist_four_or_more(h1) == sum_range(h1, 4, n0) + h1[n0]);
                }
            }
        }
        let c = self.arg_counts[args];
        proof {
            let h = self.arg_counts@;
            lemma_sum_range_elem(h, 0, h.len() as int, args as int);
        }
        let ghost h_pre = self.arg_counts@;
        self.arg_counts.set(args, c + 1);
        proof {
            let h2 = self.arg_counts@;
            lemma_sum_range_update(h_pre, args as int, (c + 1) as usize, 0, h_pre.len() as int);
            lemma_sum_range_update(h_pre, args as int, (c + 1) as usize, 4, h_pre.len() as int);
            assert forall|k: int|
                hist_at(h2, k) == hist_at(old(self).arg_counts@, k) + (if k == args {
                    1int
                } else {
                    0int
                }) by {
                if 0 <= k < h_pre.len() && k != args {
                    assert(h2[k] == h_pre[k]);
                }
            }
        }
    }

    /// Hook for an item node: a well-formed function item records its
    /// parameter count; a non-function item changes nothing, and a malformed
    /// function item (parameter list missing) is skipped, not an error.
    pub fn visit_item(&mut self, i: &Node)
        requires
            arity_count(*i, usize::MAX as int) == 0,
            is_function_item(*i) ==> hist_total(old(self).arg_counts@) < usize::MAX,
        ensures
            final(self).println_count == old(self).println_count,
            old(self).arg_counts@.len() <= final(self).arg_counts@.len(),
            forall|k: int|
                hist_at(final(self).arg_counts@, k) == hist_at(old(self).arg_counts@, k) + (
                if is_function_item(*i) && arity_of(*i) == k {
                    1int
                } else {
                    0int
                }),
            hist_total(final(self).arg_counts@) == hist_total(old(self).arg_counts@) + (
            if is_function_item(*i) {
                1int
            } else {
                0int
            }),
            hist_four_or_more(final(self).arg_counts@) == hist_four_or_more(
                old(self).arg_counts@,
            ) + (if is_function_item(*i) && arity_of(*i) >= 4 {
                1int
            } else {
                0int
            }),
    {
        match i {
            Node::Item { kind: ItemKind::Function { params: Some(ps) }, .. } => {
                proof {
                    vstd::std_specs::vec::axiom_spec_len(ps);
                    if ps@.len() == usize::MAX {
                        assert(arity_pred(usize::MAX as int)(*i));
                        assert(count_node(*i, arity_pred(usize::MAX as int)) >= 1);
                    }
                }
                self.increment_args(ps.len());
            },
            _ => {},
        }
    }

    /// Hook for a macro-invocation node: renders its path and counts an
    /// exact, case-sensitive match against the target name; a missing or
    /// malformed path is a non-match, not an error.
    pub fn visit_mac(&mut self, m: &Node, target: &String)
        requires
            is_macro_match(*m, target@) ==> old(self).println_count < usize::MAX,
        ensures
            final(self).arg_counts@ == old(self).arg_counts@,
            final(self).println_count == old(self).println_count + (if is_macro_match(
                *m,
                target@,
            ) {
                1int
            } else {
                0int
            }),
    {
        match m {
            Node::Mac { path: Some(segs), .. } => {
                let rendered = path_to_string(segs);
                if rendered == *target {
                    self.println_count = self.println_count + 1;
                }
            },
            _ => {},
        }
    }

    /// The summary numbers of the histogram collected so far: the most
    /// common parameter count (ties resolved to the lowest count, and zero
    /// when nothing was recorded), the share of functions declaring exactly
    /// that count, and the share declaring four or more, both as exact
    /// fractions of the function total.
    pub fn compute_arg_stats(&self) -> (r: (usize, Percent, Percent))
        requires
            hist_total(self.arg_counts@) <= usize::MAX,
        ensures
            r.1.total == hist_total(self.arg_counts@),
            r.2.total == hist_total(self.arg_counts@),
            r.2.count == hist_four_or_more(self.arg_counts@),
            hist_total(self.arg_counts@) > 0 ==> is_first_modal(self.arg_counts@, r.0 as int)
                && r.1.count == hist_at(self.arg_counts@, r.0 as int),
            hist_total(self.arg_counts@) == 0 ==> r.0 == 0 && r.1.count == 0,
    {
        let ghost h = self.arg_counts@;
        let mut total: usize = 0;
        let mut four_or_more: usize = 0;
        let mut common: usize = 0;
        let mut common_index: usize = 0;
        let mut i: usize = 0;
        while i < self.arg_counts.len()
            invariant
                0 <= i <= h.len(),
                h == self.arg_counts@,
                hist_total(h) <= usize::MAX,
                total == sum_range(h, 0, i as int),
                four_or_more == sum_range(h, 4, i as int),
                forall|j: int| 0 <= j < i ==> h[j] <= common,
                common > 0 ==> common_index < i && h[common_index as int] == common && (forall|
                    j: int,
                |
                    0 <= j < common_index ==> h[j] < common),
                common == 0 ==> common_index == 0,
            decreases h.len() - i,
        {
            let c = self.arg_counts[i];
            proof {
                lemma_sum_range_monotone(h, 0, i + 1, h.len() as int);
                lemma_sum_range_widen_lo(h, 0, 4, i + 1);
            }
            total = total + c;
            if i >= 4 {
                four_or_more = four_or_more + c;
            }
            if c > common {
                common = c;
                common_index = i;
            }
            i = i + 1;
        }
        proof {
            if hist_total(h) > 0 && common == 0 {
                assert forall|j: int| 0 <= j < h.len() implies #[trigger] hist_at(h, j) == 0 by {}
                lemma_sum_range_zero(h, 0, h.len() as int);
            }
            if hist_total(h) == 0 && common > 0 {
                lemma_sum_range_elem(h, 0, h.len() as int, common_index as int);
            }
        }
        (
            common_index,
            Percent { count: common, total },
            Percent { count: four_or_more, total },
        )
    }

    /// Consume the accumulator and produce the report; signals `EmptyInput`
    /// instead of dividing by zero when no function item was recorded.
    pub fn finalize(self) -> (r: Result<Report, StatsError>)
        requires
            hist_total(self.arg_counts@) <= usize::MAX,
        ensures
            r is Err <==> hist_total(self.arg_counts@) == 0,
            r is Err ==> r == Err::<Report, StatsError>(StatsError::EmptyInput),
            r is Ok ==> report_of_state(self.println_count, self.arg_counts@, r->Ok_0),
    {
        let (common_index, modal_percent, four_percent) = self.compute_arg_stats();
        if modal_percent.total == 0 {
            Err(StatsError::EmptyInput)
        } else {
            Ok(
                Report {
                    invocation_count: self.println_count,
                    modal_arity: common_index,
                    modal_arity_percent: modal_percent,
                    four_or_more_percent: four_percent,
                },
            )
        }
    }
}

} // verus!
