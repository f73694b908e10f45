//! The syntax-tree model the statistics are computed over.
//!
//! A tree is an ordered forest of nodes. A node is an item declaration, a
//! macro invocation, or any other syntactic construct; every node carries its
//! children in source order, so a traversal that always descends sees macro
//! invocations inside function bodies, nested items, and other macros'
//! arguments. A function item carries its ordered parameter list; a missing
//! list (or a missing macro path) marks a malformed node, which is skipped
//! for aggregation but still traversed.

use vstd::prelude::*;

verus! {

/// One formal parameter of a declared function.
pub struct Param {
    pub name: String,
}

/// What an item node declares.
pub enum ItemKind {
    /// A function declaration with its ordered parameter list; `None` stands
    /// for a malformed node whose parameter-list field is missing.
    Function { params: Option<Vec<Param>> },
    /// Any non-function item (a type, a constant, a module, ...).
    Other,
}

/// A node of the syntax tree.
pub enum Node {
    /// An item declaration and the nodes nested inside it.
    Item { kind: ItemKind, children: Vec<Node> },
    /// A macro invocation: its path as rendered segments (`None` stands for
    /// an unresolved or malformed path) and the nodes nested in its
    /// arguments.
    Mac { path: Option<Vec<String>>, children: Vec<Node> },
    /// Any other construct that only contributes its children.
    Other { children: Vec<Node> },
}

/// An ordered forest of nodes, as a front end hands it in.
pub struct SyntaxTree {
    pub roots: Vec<Node>,
}

/// The text form of a path: its segments joined by `::`.
pub open spec fn rendered_path(segs: Seq<Seq<char>>) -> Seq<char>
    decreases segs.len(),
{
    if segs.len() == 0 {
        Seq::empty()
    } else if segs.len() == 1 {
        segs[0]
    } else {
        rendered_path(segs.drop_last()) + "::"@ + segs.last()
    }
}

/// The views of a sequence of path segments.
pub open spec fn path_view(segs: Seq<String>) -> Seq<Seq<char>> {
    segs.map_values(|s: String| s@)
}

/// Whether this node itself is a macro invocation whose rendered path equals
/// `target` exactly (case-sensitive); a malformed path never matches.
pub open spec fn is_macro_match(n: Node, target: Seq<char>) -> bool {
    match n {
        Node::Mac { path: Some(segs), .. } => rendered_path(path_view(segs@)) == target,
        _ => false,
    }
}

/// Whether this node itself is a well-formed function item.
pub open spec fn is_function_item(n: Node) -> bool {
    n matches Node::Item { kind: ItemKind::Function { params: Some(_) }, .. }
}

/// The declared parameter count of a well-formed function item.
pub open spec fn arity_of(n: Node) -> nat {
    match n {
        Node::Item { kind: ItemKind::Function { params: Some(ps) }, .. } => ps@.len(),
        _ => 0,
    }
}

/// How many nodes of the subtree rooted at `n` satisfy `p`.
pub open spec fn count_node(n: Node, p: spec_fn(Node) -> bool) -> nat
    decreases n,
{
    (if p(n) {
        1nat
    } else {
        0nat
    }) + match n {
        Node::Item { children, .. } => count_forest(children@, p),
        Node::Mac { children, .. } => count_forest(children@, p),
        Node::Other { children } => count_forest(children@, p),
    }
}

/// How many nodes of the forest `s`, subtrees included, satisfy `p`.
pub open spec fn count_forest(s: Seq<Node>, p: spec_fn(Node) -> bool) -> nat
    decreases s,
{
    if s.len() == 0 {
        0nat
    } else {
        count_node(s[0], p) + count_forest(s.drop_first(), p)
    }
}

/// The nodes that count as matching macro invocations for `target`.
pub open spec fn macro_pred(target: Seq<char>) -> spec_fn(Node) -> bool {
    |n: Node| is_macro_match(n, target)
}

/// The nodes that count as visited function items.
pub open spec fn fn_pred() -> spec_fn(Node) -> bool {
    |n: Node| is_function_item(n)
}

/// The function items of parameter count `k`.
pub open spec fn arity_pred(k: int) -> spec_fn(Node) -> bool {
    |n: Node| is_function_item(n) && arity_of(n) == k
}

/// The function items with four or more parameters.
pub open spec fn four_plus_pred() -> spec_fn(Node) -> bool {
    |n: Node| is_function_item(n) && arity_of(n) >= 4
}

/// Matching macro invocations in the subtree rooted at `n`.
pub open spec fn macro_count(n: Node, target: Seq<char>) -> nat {
    count_node(n, macro_pred(target))
}

/// Function items in the subtree rooted at `n`.
pub open spec fn fn_count(n: Node) -> nat {
    count_node(n, fn_pred())
}

/// Function items of parameter count `k` in the subtree rooted at `n`.
pub open spec fn arity_count(n: Node, k: int) -> nat {
    count_node(n, arity_pred(k))
}

/// Function items with four or more parameters in the subtree rooted at `n`.
pub open spec fn four_plus_count(n: Node) -> nat {
    count_node(n, four_plus_pred())
}

/// Matching macro invocations anywhere in the tree.
pub open spec fn tree_macro_count(t: SyntaxTree, target: Seq<char>) -> nat {
    count_forest(t.roots@, macro_pred(target))
}

/// Function items anywhere in the tree.
pub open spec fn tree_fn_count(t: SyntaxTree) -> nat {
    count_forest(t.roots@, fn_pred())
}

/// Function items of parameter count `k` anywhere in the tree.
pub open spec fn tree_arity_count(t: SyntaxTree, k: int) -> nat {
    count_forest(t.roots@, arity_pred(k))
}

/// Function items with four or more parameters anywhere in the tree.
pub open spec fn tree_four_plus_count(t: SyntaxTree) -> nat {
    count_forest(t.roots@, four_plus_pred())
}

/// The dotted/text form of a macro path: its segments joined by `::`.
pub fn path_to_string(segs: &Vec<String>) -> (r: String)
    ensures
        r@ == rendered_path(path_view(segs@)),
{
    if segs.len() == 0 {
        return String::new();
    }
    let mut r = segs[0].clone();
    proof {
        assert(path_view(segs@).take(1)[0] == segs@[0]@);
    }
    let mut i: usize = 1;
    while i < segs.len()
        invariant
            1 <= i <= segs@.len(),
            r@ == rendered_path(path_view(segs@).take(i as int)),
        decreases segs@.len() - i,
    {
        r.append("::");
        r.append(segs[i].as_str());
        proof {
            let pv = path_view(segs@);
            assert(pv.take(i + 1).drop_last() =~= pv.take(i as int));
            assert(pv.take(i + 1).last() == segs@[i as int]@);
        }
        i = i + 1;
    }
    proof {
        assert(path_view(segs@).take(segs@.len() as int) =~= path_view(segs@));
    }
    r
}

/// A forest's count splits at any position into the counts of the prefix and
/// of the rest.
pub proof fn lemma_count_forest_split(s: Seq<Node>, p: spec_fn(Node) -> bool, i: int)
    requires
        0 <= i <= s.len(),
    ensures
        count_forest(s, p) == count_forest(s.take(i), p) + count_forest(s.skip(i), p),
    decreases i,
{
    if i == 0 {
        assert(s.take(0) =~= Seq::<Node>::empty());
        assert(s.skip(0) =~= s);
    } else {
        lemma_count_forest_split(s.drop_first(), p, i - 1);
        assert(s.take(i).drop_first() =~= s.drop_first().take(i - 1));
        assert(s.skip(i) =~= s.drop_first().skip(i - 1));
        assert(s.take(i)[0] == s[0]);
    }
}

/// Extending a processed prefix by one node adds exactly that node's subtree
/// count, and what a prefix and the next node hold together never exceeds
/// the whole forest's count.
pub proof fn lemma_count_forest_step(s: Seq<Node>, p: spec_fn(Node) -> bool, i: int)
    requires
        0 <= i < s.len(),
    ensures
        count_forest(s.take(i + 1), p) == count_forest(s.take(i), p) + count_node(s[i], p),
        count_forest(s.take(i), p) + count_node(s[i], p) <= count_forest(s, p),
{
    lemma_count_forest_split(s.take(i + 1), p, i);
    assert(s.take(i + 1).take(i) =~= s.take(i));
    let tail = s.take(i + 1).skip(i);
    assert(tail.len() == 1 && tail[0] == s[i]);
    assert(tail.drop_first() =~= Seq::<Node>::empty());
    assert(count_forest(tail.drop_first(), p) == 0);
    assert(count_forest(tail, p) == count_node(s[i], p));
    lemma_count_forest_split(s, p, i);
    assert(s.skip(i)[0] == s[i]);
    assert(s.skip(i).drop_first() =~= s.skip(i + 1));
}

/// A whole forest is its own prefix of full length.
pub proof fn lemma_count_forest_take_all(s: Seq<Node>, p: spec_fn(Node) -> bool)
    ensures
        count_forest(s.take(s.len() as int), p) == count_forest(s, p),
{
    assert(s.take(s.len() as int) =~= s);
}

} // verus!
