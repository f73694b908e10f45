//! Single-pass statistics over a parsed syntax tree.
//!
//! Given a read-only view of a syntax tree, the library counts the macro
//! invocations whose rendered path equals a configured target name, collects
//! a histogram of declared-function parameter counts, and summarizes the
//! histogram as the most frequent arity together with exact percentage
//! fractions. The front end that parses source text and owns the tree stays
//! outside the library; it hands in a tree value and receives a report.

use vstd::prelude::*;

pub mod hist;
pub mod report;
pub mod tree;
pub mod visitor;
pub mod walker;

verus! {

/// Arguments that point a compiler invocation at a toolchain's sysroot:
/// the `--sysroot` flag followed by `<home>/toolchains/<toolchain>`.
pub fn sys_root(home: &str, toolchain: &str) -> (r: Vec<String>)
    ensures
        r@.len() == 2,
        r@[0]@ == "--sysroot"@,
        r@[1]@ == home@ + "/toolchains/"@ + toolchain@,
{
    let flag = String::from_str("--sysroot");
    let mut path = String::from_str(home);
    path.append("/toolchains/");
    path.append(toolchain);
    let mut r: Vec<String> = Vec::new();
    r.push(flag);
    r.push(path);
    r
}

} // verus!
