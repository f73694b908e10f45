//! Whole-tree analyses: building small trees and checking the reports.

use stupid_stats::report::{Report, StatsError};
use stupid_stats::tree::{ItemKind, Node, Param, SyntaxTree};
use stupid_stats::walker::{analyze, default_target};

fn params(n: usize) -> Vec<Param> {
    let mut ps = Vec::new();
    let mut i: usize = 0;
    while i < n {
        ps.push(Param { name: format!("p{}", i) });
        i += 1;
    }
    ps
}

fn fn_item(arity: usize) -> Node {
    Node::Item { kind: ItemKind::Function { params: Some(params(arity)) }, children: Vec::new() }
}

fn fn_item_with(arity: usize, children: Vec<Node>) -> Node {
    Node::Item { kind: ItemKind::Function { params: Some(params(arity)) }, children }
}

fn other_item(children: Vec<Node>) -> Node {
    Node::Item { kind: ItemKind::Other, children }
}

fn mac(name: &str) -> Node {
    Node::Mac { path: Some(vec![name.to_string()]), children: Vec::new() }
}

fn mac_with(name: &str, children: Vec<Node>) -> Node {
    Node::Mac { path: Some(vec![name.to_string()]), children }
}

fn tree(roots: Vec<Node>) -> SyntaxTree {
    SyntaxTree { roots }
}

fn run(roots: Vec<Node>) -> Result<Report, StatsError> {
    analyze(&tree(roots), &default_target())
}

#[test]
fn empty_tree_signals_empty_input() {
    assert_eq!(run(Vec::new()), Err(StatsError::EmptyInput));
}

#[test]
fn tree_without_functions_signals_empty_input() {
    let roots = vec![other_item(Vec::new()), mac("println"), other_item(Vec::new())];
    assert_eq!(run(roots), Err(StatsError::EmptyInput));
}

#[test]
fn histogram_sum_matches_function_count() {
    let roots = vec![fn_item(0), fn_item(1), fn_item(1), fn_item(2), mac("println")];
    let rep = run(roots).unwrap();
    assert_eq!(rep.modal_arity_percent.total, 4);
    assert_eq!(rep.four_or_more_percent.total, 4);
}

#[test]
fn counts_are_independent_of_traversal_order() {
    let forward = vec![fn_item(0), fn_item(1), fn_item(1), mac("println"), fn_item(2)];
    let backward = vec![fn_item(2), mac("println"), fn_item(1), fn_item(1), fn_item(0)];
    assert_eq!(run(forward).unwrap(), run(backward).unwrap());
}

#[test]
fn macro_match_is_case_sensitive_and_exact() {
    let roots = vec![fn_item(0), mac("print"), mac("Println"), mac("println")];
    let rep = run(roots).unwrap();
    assert_eq!(rep.invocation_count, 1);
}

#[test]
fn reports_are_bit_identical_across_runs() {
    let t = tree(vec![fn_item(1), fn_item(4), mac("println"), mac("println")]);
    let target = default_target();
    let first = analyze(&t, &target);
    let second = analyze(&t, &target);
    assert_eq!(first, second);
}

#[test]
fn nested_invocations_all_counted() {
    // One invocation inside a function body, one inside an item nested in a
    // module, one inside another macro's arguments.
    let in_fn_body = fn_item_with(2, vec![mac("println")]);
    let in_nested_module = other_item(vec![other_item(vec![mac("println")])]);
    let in_macro_args = mac_with("vec", vec![mac("println")]);
    let rep = run(vec![in_fn_body, in_nested_module, in_macro_args]).unwrap();
    assert_eq!(rep.invocation_count, 3);
}

#[test]
fn non_function_items_do_not_contribute() {
    let roots = vec![fn_item(2), other_item(Vec::new()), other_item(Vec::new())];
    let rep = run(roots).unwrap();
    assert_eq!(rep.modal_arity, 2);
    assert_eq!(rep.modal_arity_percent.total, 1);
    assert_eq!(rep.modal_arity_percent.count, 1);
}

fn malformed_fn(children: Vec<Node>) -> Node {
    Node::Item { kind: ItemKind::Function { params: None }, children }
}

#[test]
fn malformed_function_item_is_skipped_but_traversed() {
    // The malformed item counts no function, so the analysis has no
    // denominator; the macro nested below it is still visited.
    assert_eq!(
        run(vec![malformed_fn(vec![mac("println")])]),
        Err(StatsError::EmptyInput)
    );
    let rep = run(vec![malformed_fn(vec![mac("println")]), fn_item(0)]).unwrap();
    assert_eq!(rep.invocation_count, 1);
    assert_eq!(rep.modal_arity_percent.total, 1);
}

#[test]
fn malformed_macro_path_is_not_a_match() {
    let unresolved = Node::Mac { path: None, children: Vec::new() };
    let rep = run(vec![unresolved, fn_item(0), mac("println")]).unwrap();
    assert_eq!(rep.invocation_count, 1);
}

fn qualified_println() -> Node {
    Node::Mac {
        path: Some(vec!["std".to_string(), "println".to_string()]),
        children: Vec::new(),
    }
}

#[test]
fn multi_segment_paths_render_dotted() {
    let rep = analyze(&tree(vec![qualified_println(), fn_item(0)]), &default_target()).unwrap();
    assert_eq!(rep.invocation_count, 0);
    let qualified_rep = analyze(
        &tree(vec![qualified_println(), fn_item(0)]),
        &"std::println".to_string(),
    )
    .unwrap();
    assert_eq!(qualified_rep.invocation_count, 1);
}

#[test]
fn report_fields_are_exact() {
    let roots = vec![
        fn_item(1),
        fn_item(2),
        fn_item(2),
        fn_item(5),
        mac("println"),
        mac("println"),
    ];
    let rep = run(roots).unwrap();
    assert_eq!(rep.invocation_count, 2);
    assert_eq!(rep.modal_arity, 2);
    assert_eq!(rep.modal_arity_percent.count, 2);
    assert_eq!(rep.modal_arity_percent.total, 4);
    assert_eq!(rep.four_or_more_percent.count, 1);
    assert_eq!(rep.four_or_more_percent.total, 4);
}
