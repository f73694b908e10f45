//! The tree walker: a deterministic pre-order traversal that visits every
//! node exactly once, dispatching to the accumulator's hooks and always
//! descending into children, and the analysis entry point built on it.

use vstd::prelude::*;
use crate::hist::{hist_at, hist_four_or_more, hist_total};
use crate::report::{report_matches, report_of_state, Report, StatsError};
use crate::tree::{arity_count, arity_pred, count_forest, count_node, fn_count, fn_pred,
    four_plus_count, four_plus_pred, lemma_count_forest_step, lemma_count_forest_take_all,
    macro_count, macro_pred, tree_arity_count, tree_fn_count, tree_four_plus_count,
    tree_macro_count, Node, SyntaxTree};
use crate::visitor::StupidVisitor;

verus! {

/// Walk one node: visit it, then walk its children in source order. The
/// accumulator gains exactly the subtree's matching-macro count and, cell by
/// cell, its function-arity counts.
pub fn walk_node(v: &mut StupidVisitor, node: &Node, target: &String)
    requires
        old(v).println_count + macro_count(*node, target@) <= usize::MAX,
        hist_total(old(v).arg_counts@) + fn_count(*node) <= usize::MAX,
        arity_count(*node, usize::MAX as int) == 0,
    ensures
        final(v).println_count == old(v).println_count + macro_count(*node, target@),
        forall|k: int|
            hist_at(final(v).arg_counts@, k) == hist_at(old(v).arg_counts@, k) + arity_count(
                *node,
                k,
            ),
        hist_total(final(v).arg_counts@) == hist_total(old(v).arg_counts@) + fn_count(*node),
        hist_four_or_more(final(v).arg_counts@) == hist_four_or_more(old(v).arg_counts@)
            + four_plus_count(*node),
    decreases *node,
{
    match node {
        Node::Item { children, .. } => {
            v.visit_item(node);
            walk_nodes(v, children, target);
        },
        Node::Mac { children, .. } => {
            v.visit_mac(node, target);
            walk_nodes(v, children, target);
        },
        Node::Other { children } => {
            walk_nodes(v, children, target);
        },
    }
}

/// Walk a forest of nodes in order; the accumulator gains exactly the
/// forest's counts.
pub fn walk_nodes(v: &mut StupidVisitor, nodes: &Vec<Node>, target: &String)
    requires
        old(v).println_count + count_forest(nodes@, macro_pred(target@)) <= usize::MAX,
        hist_total(old(v).arg_counts@) + count_forest(nodes@, fn_pred()) <= usize::MAX,
        count_forest(nodes@, arity_pred(usize::MAX as int)) == 0,
    ensures
        final(v).println_count == old(v).println_count + count_forest(
            nodes@,
            macro_pred(target@),
        ),
        forall|k: int|
            hist_at(final(v).arg_counts@, k) == hist_at(old(v).arg_counts@, k) + count_forest(
                nodes@,
                arity_pred(k),
            ),
        hist_total(final(v).arg_counts@) == hist_total(old(v).arg_counts@) + count_forest(
            nodes@,
            fn_pred(),
        ),
        hist_four_or_more(final(v).arg_counts@) == hist_four_or_more(old(v).arg_counts@)
            + count_forest(nodes@, four_plus_pred()),
    decreases nodes@,
{
    let mut i: usize = 0;
    while i < nodes.len()
        invariant
            0 <= i <= nodes@.len(),
            old(v).println_count + count_forest(nodes@, macro_pred(target@)) <= usize::MAX,
            hist_total(old(v).arg_counts@) + count_forest(nodes@, fn_pred()) <= usize::MAX,
            count_forest(nodes@, arity_pred(usize::MAX as int)) == 0,
            v.println_count == old(v).println_count + count_forest(
                nodes@.take(i as int),
                macro_pred(target@),
            ),
            forall|k: int|
                hist_at(v.arg_counts@, k) == hist_at(old(v).arg_counts@, k) + count_forest(
                    nodes@.take(i as int),
                    arity_pred(k),
                ),
            hist_total(v.arg_counts@) == hist_total(old(v).arg_counts@) + count_forest(
                nodes@.take(i as int),
                fn_pred(),
            ),
            hist_four_or_more(v.arg_counts@) == hist_four_or_more(old(v).arg_counts@)
                + count_forest(nodes@.take(i as int), four_plus_pred()),
        decreases nodes@.len() - i,
    {
        proof {
            lemma_count_forest_step(nodes@, macro_pred(target@), i as int);
            lemma_count_forest_step(nodes@, fn_pred(), i as int);
            lemma_count_forest_step(nodes@, four_plus_pred(), i as int);
            lemma_count_forest_step(nodes@, arity_pred(usize::MAX as int), i as int);
            assert forall|k: int|
                count_forest(nodes@.take(i + 1), arity_pred(k)) == count_forest(
                    nodes@.take(i as int),
                    arity_pred(k),
                ) + count_node(nodes@[i as int], arity_pred(k)) by {
                lemma_count_forest_step(nodes@, arity_pred(k), i as int);
            }
        }
        walk_node(v, &nodes[i], target);
        i = i + 1;
    }
    proof {
        lemma_count_forest_take_all(nodes@, macro_pred(target@));
        lemma_count_forest_take_all(nodes@, fn_pred());
        lemma_count_forest_take_all(nodes@, four_plus_pred());
        assert forall|k: int|
            count_forest(nodes@.take(nodes@.len() as int), arity_pred(k)) == count_forest(
                nodes@,
                arity_pred(k),
            ) by {
            lemma_count_forest_take_all(nodes@, arity_pred(k));
        }
    }
}

/// Walk a whole tree, visiting every node exactly once in pre-order.
pub fn walk_crate(v: &mut StupidVisitor, krate: &SyntaxTree, target: &String)
    requires
        old(v).println_count + tree_macro_count(*krate, target@) <= usize::MAX,
        hist_total(old(v).arg_counts@) + tree_fn_count(*krate) <= usize::MAX,
        tree_arity_count(*krate, usize::MAX as int) == 0,
    ensures
        final(v).println_count == old(v).println_count + tree_macro_count(*krate, target@),
        forall|k: int|
            hist_at(final(v).arg_counts@, k) == hist_at(old(v).arg_counts@, k) + tree_arity_count(
                *krate,
                k,
            ),
        hist_total(final(v).arg_counts@) == hist_total(old(v).arg_counts@) + tree_fn_count(*krate),
        hist_four_or_more(final(v).arg_counts@) == hist_four_or_more(old(v).arg_counts@)
            + tree_four_plus_count(*krate),
{
    walk_nodes(v, &krate.roots, target);
}

/// The well-known call name the canonical report counts: `println`.
pub fn default_target() -> (s: String)
    ensures
        s@ == "println"@,
{
    String::from_str("println")
}

/// Analyze one tree: construct a fresh accumulator, walk the tree once, and
/// finalize. Succeeds exactly when the tree holds a well-formed function
/// item; with none, the percentages would have no denominator and
/// `EmptyInput` is signalled instead.
pub fn analyze(krate: &SyntaxTree, target: &String) -> (r: Result<Report, StatsError>)
    requires
        target@.len() > 0,
        tree_macro_count(*krate, target@) <= usize::MAX,
        tree_fn_count(*krate) <= usize::MAX,
        tree_arity_count(*krate, usize::MAX as int) == 0,
    ensures
        r is Err <==> tree_fn_count(*krate) == 0,
        r is Err ==> r == Err::<Report, StatsError>(StatsError::EmptyInput),
        r is Ok ==> report_matches(*krate, target@, r->Ok_0),
{
    let mut v = StupidVisitor::new();
    walk_crate(&mut v, krate, target);
    let ghost h = v.arg_counts@;
    let ghost pc = v.println_count;
    proof {
        assert(hist_total(h) == tree_fn_count(*krate));
    }
    let r = v.finalize();
    proof {
        if r is Ok {
            let rep = r->Ok_0;
            assert(report_of_state(pc, h, rep));
            let m = rep.modal_arity as int;
            assert(hist_at(h, m) == tree_arity_count(*krate, m));
            assert forall|k: int| 0 <= k implies tree_arity_count(*krate, k) <= tree_arity_count(
                *krate,
                m,
            ) by {
                assert(hist_at(h, k) == tree_arity_count(*krate, k));
            }
            assert forall|k: int| 0 <= k < m implies tree_arity_count(*krate, k)
                < tree_arity_count(*krate, m) by {
                assert(hist_at(h, k) == tree_arity_count(*krate, k));
            }
            assert(report_matches(*krate, target@, rep));
        }
    }
    r
}

} // verus!
