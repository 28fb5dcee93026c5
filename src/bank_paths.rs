//! Where a sound bank is loaded from: a bank path that is relative is taken
//! from the project's root directory, any other path is used as it is.
use vstd::prelude::*;

use crate::path_ops::{joined_path, path_is_relative, path_join, relative_path};

verus! {

/// The path a bank is loaded from, given its path and the project's root.
pub open spec fn resolved_bank_path(path: Seq<char>, project_root: Seq<char>) -> Seq<char> {
    if relative_path(path) {
        joined_path(project_root, path)
    } else {
        path
    }
}

/// The path a bank is loaded from: `path` under `project_root` where `path`
/// is relative, `path` itself otherwise.
pub fn resolve_bank_path(path: &str, project_root: &str) -> (r: String)
    ensures
        r@ == resolved_bank_path(path@, project_root@),
{
    if path_is_relative(path) {
        path_join(project_root, path)
    } else {
        path.to_owned()
    }
}

/// Resolves each bank path in turn, keeping their order.
pub fn resolve_bank_paths(paths: &Vec<String>, project_root: &str) -> (r: Vec<String>)
    ensures
        r.len() == paths.len(),
        forall|i: int|
            0 <= i < paths.len() ==> #[trigger] r[i]@ == resolved_bank_path(
                paths[i]@,
                project_root@,
            ),
{
    let mut resolved: Vec<String> = Vec::new();
    let n: usize = paths.len();
    for i in 0..n
        invariant
            n == paths.len(),
            resolved.len() == i,
            forall|j: int|
                0 <= j < i ==> #[trigger] resolved[j]@ == resolved_bank_path(
                    paths[j]@,
                    project_root@,
                ),
    {
        resolved.push(resolve_bank_path(paths[i].as_str(), project_root));
    }
    resolved
}

} // verus!
