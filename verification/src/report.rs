//! The summary report an analysis produces, and what pins it down.

use vstd::prelude::*;
use crate::hist::{hist_at, hist_four_or_more, hist_total, is_first_modal};
use crate::tree::{tree_arity_count, tree_fn_count, tree_four_plus_count, tree_macro_count,
    SyntaxTree};

verus! {

/// An exact percentage: `count` out of `total`, meaning
/// `100 * count / total` percent. Kept as the two integers so that the value
/// is exact; a presentation layer may divide them out.
#[derive(Clone, Copy, Debug, PartialEq, Eq, Structural)]
pub struct Percent {
    pub count: usize,
    pub total: usize,
}

/// The summary of one analysis: how many macro invocations matched the
/// target name, the most frequent parameter count among the function items,
/// the share of functions having exactly that count, and the share having
/// four or more parameters.
#[derive(Clone, Copy, Debug, PartialEq, Eq, Structural)]
pub struct Report {
    pub invocation_count: usize,
    pub modal_arity: usize,
    pub modal_arity_percent: Percent,
    pub four_or_more_percent: Percent,
}

/// Why an analysis can produce no report.
#[derive(Clone, Copy, Debug, PartialEq, Eq, Structural)]
pub enum StatsError {
    /// The tree holds no well-formed function item, so the percentages have
    /// no denominator.
    EmptyInput,
}

/// `m` is the modal arity of the tree: no parameter count occurs more often
/// than `m`, and every smaller count occurs strictly less often, so `m` is
/// the lowest index reaching the maximum.
pub open spec fn is_tree_modal(t: SyntaxTree, m: int) -> bool {
    &&& 0 <= m
    &&& forall|k: int| 0 <= k ==> tree_arity_count(t, k) <= tree_arity_count(t, m)
    &&& forall|k: int| 0 <= k < m ==> tree_arity_count(t, k) < tree_arity_count(t, m)
}

/// What a report says of the tree it was computed from. Every field is a
/// function of the tree and the target name alone.
pub open spec fn report_matches(t: SyntaxTree, target: Seq<char>, rep: Report) -> bool {
    &&& rep.invocation_count == tree_macro_count(t, target)
    &&& is_tree_modal(t, rep.modal_arity as int)
    &&& rep.modal_arity_percent.count == tree_arity_count(t, rep.modal_arity as int)
    &&& rep.modal_arity_percent.total == tree_fn_count(t)
    &&& rep.four_or_more_percent.count == tree_four_plus_count(t)
    &&& rep.four_or_more_percent.total == tree_fn_count(t)
}

/// What a report says of the accumulator state it was finalized from.
pub open spec fn report_of_state(println_count: usize, h: Seq<usize>, rep: Report) -> bool {
    &&& rep.invocation_count == println_count
    &&& is_first_modal(h, rep.modal_arity as int)
    &&& rep.modal_arity_percent.count == hist_at(h, rep.modal_arity as int)
    &&& rep.modal_arity_percent.total == hist_total(h)
    &&& rep.four_or_more_percent.count == hist_four_or_more(h)
    &&& rep.four_or_more_percent.total == hist_total(h)
}

/// Law: the analysis is deterministic. Any two reports that describe the
/// same tree and the same target name are equal, so repeating an analysis of
/// an unmodified tree reproduces the report exactly.
pub proof fn lemma_analysis_deterministic(
    t: SyntaxTree,
    target: Seq<char>,
    r1: Report,
    r2: Report,
)
    requires
        report_matches(t, target, r1),
        report_matches(t, target, r2),
    ensures
        r1 == r2,
{
    let m1 = r1.modal_arity as int;
    let m2 = r2.modal_arity as int;
    if m1 < m2 {
        assert(tree_arity_count(t, m1) < tree_arity_count(t, m2));
        assert(tree_arity_count(t, m2) <= tree_arity_count(t, m1));
    }
    if m2 < m1 {
        assert(tree_arity_count(t, m2) < tree_arity_count(t, m1));
        assert(tree_arity_count(t, m1) <= tree_arity_count(t, m2));
    }
}

} // verus!
