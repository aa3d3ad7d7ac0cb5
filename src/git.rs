//! This module reads what git reports for the checks made before a project
//! is deleted

use vstd::prelude::*;

verus! {

/// Whether the working tree is clean, given what `git status --porcelain`
/// printed: it prints nothing for a clean tree
pub fn repo_clean_tree(porcelain_status: &str) -> (r: bool)
    ensures
        r == (porcelain_status@.len() == 0),
{
    porcelain_status.unicode_len() == 0
}

/// Whether the branch has been pushed, given the commits that
/// `git rev-parse` printed for the branch and for its upstream
pub fn repo_pushed(local_head: &str, upstream_head: &str) -> (r: bool)
    ensures
        r == (local_head@ == upstream_head@),
{
    let a = String::from_str(local_head);
    let b = String::from_str(upstream_head);
    a.eq(&b)
}

} // verus!
