//! The accumulator and the helpers around it, driven directly.

use stupid_stats::sys_root;
use stupid_stats::tree::path_to_string;
use stupid_stats::visitor::StupidVisitor;

#[test]
fn fresh_accumulator_is_empty() {
    let v = StupidVisitor::new();
    assert_eq!(v.println_count, 0);
    assert!(v.arg_counts.is_empty());
}

#[test]
fn increment_args_grows_histogram_with_zero_fill() {
    let mut v = StupidVisitor::new();
    v.increment_args(3);
    assert_eq!(v.arg_counts, vec![0, 0, 0, 1]);
    v.increment_args(0);
    assert_eq!(v.arg_counts, vec![1, 0, 0, 1]);
    v.increment_args(3);
    assert_eq!(v.arg_counts, vec![1, 0, 0, 2]);
}

#[test]
fn modal_tie_breaks_to_lowest_arity() {
    // Histogram [2, 5, 5, 1]: the maximum count 5 is shared by arities 1 and
    // 2; the modal arity is the lower one.
    let mut v = StupidVisitor::new();
    for (arity, count) in [(0usize, 2usize), (1, 5), (2, 5), (3, 1)] {
        for _ in 0..count {
            v.increment_args(arity);
        }
    }
    let (modal, modal_percent, four_percent) = v.compute_arg_stats();
    assert_eq!(modal, 1);
    assert_eq!(modal_percent.count, 5);
    assert_eq!(modal_percent.total, 13);
    assert_eq!(four_percent.count, 0);
}

#[test]
fn four_or_more_share_is_exact() {
    // One function of each arity 0 through 5: 2 of the 6 have four or more
    // parameters.
    let mut v = StupidVisitor::new();
    for arity in 0..6usize {
        v.increment_args(arity);
    }
    let (_, _, four_percent) = v.compute_arg_stats();
    assert_eq!(four_percent.count, 2);
    assert_eq!(four_percent.total, 6);
    let share = 100.0 * four_percent.count as f64 / four_percent.total as f64;
    assert_eq!(share, 100.0 * 2.0 / 6.0);
    assert!((share - 33.33).abs() < 0.01);
}

#[test]
fn empty_accumulator_stats_default_to_zero() {
    let v = StupidVisitor::new();
    let (modal, modal_percent, four_percent) = v.compute_arg_stats();
    assert_eq!(modal, 0);
    assert_eq!(modal_percent.count, 0);
    assert_eq!(modal_percent.total, 0);
    assert_eq!(four_percent.count, 0);
    assert_eq!(four_percent.total, 0);
}

#[test]
fn finalize_of_empty_accumulator_fails() {
    let v = StupidVisitor::new();
    assert!(v.finalize().is_err());
}

#[test]
fn finalize_reports_collected_state() {
    let mut v = StupidVisitor::new();
    v.increment_args(1);
    v.increment_args(1);
    v.increment_args(4);
    let rep = v.finalize().unwrap();
    assert_eq!(rep.invocation_count, 0);
    assert_eq!(rep.modal_arity, 1);
    assert_eq!(rep.modal_arity_percent.count, 2);
    assert_eq!(rep.modal_arity_percent.total, 3);
    assert_eq!(rep.four_or_more_percent.count, 1);
}

#[test]
fn path_rendering_joins_segments() {
    assert_eq!(path_to_string(&vec!["println".to_string()]), "println");
    assert_eq!(
        path_to_string(&vec!["std".to_string(), "io".to_string(), "Write".to_string()]),
        "std::io::Write"
    );
    assert_eq!(path_to_string(&Vec::new()), "");
}

#[test]
fn sys_root_builds_flag_pair() {
    let args = sys_root("/home/user/.rustup", "stable");
    assert_eq!(
        args,
        vec![
            "--sysroot".to_string(),
            "/home/user/.rustup/toolchains/stable".to_string()
        ]
    );
}
