//! This module contains what the launcher hands to fzf and reads back from it
//!
//! fzf runs as a child process: it is started with the arguments from
//! `fzf_args`, reads one project name per line on its stdin and prints the
//! chosen name on its stdout.

use crate::config::fzf::FzfConfig;
use crate::repo::{names_of, views, Repo};
use crate::text::{trim, trimmed};
use fzf_wrapped::{Border, Layout};
use vstd::prelude::*;

verus! {

/// The name fzf_wrapped prints for a layout
pub open spec fn layout_text(l: Layout) -> Seq<char> {
    match l {
        Layout::Default => "default"@,
        Layout::Reverse => "reverse"@,
        Layout::ReverseList => "reverse-list"@,
    }
}

/// The name fzf_wrapped prints for a border
pub open spec fn border_text(b: Border) -> Seq<char> {
    match b {
        Border::None => "none"@,
        Border::Rounded => "rounded"@,
        Border::Sharp => "sharp"@,
        Border::Horizontal => "horizontal"@,
        Border::Vertical => "vertical"@,
        Border::Top => "top"@,
        Border::Bottom => "bottom"@,
        Border::Left => "left"@,
        Border::Right => "right"@,
    }
}

/// Relies on `<fzf_wrapped::Layout as ToString>::to_string`: the option's
/// name as fzf takes it
#[verifier::external_body]
fn layout_to_string(l: &Layout) -> (r: String)
    ensures
        r@ == layout_text(*l),
{
    l.to_string()
}

/// Relies on `<fzf_wrapped::Border as ToString>::to_string`: the option's
/// name as fzf takes it
#[verifier::external_body]
fn border_to_string(b: &Border) -> (r: String)
    ensures
        r@ == border_text(*b),
{
    b.to_string()
}

/// The names, each followed by a line break
pub open spec fn lines_of(names: Seq<Seq<char>>) -> Seq<char>
    decreases names.len(),
{
    if names.len() == 0 {
        Seq::empty()
    } else {
        lines_of(names.drop_last()) + names.last() + "\n"@
    }
}

/// What is written to fzf's stdin for the projects: one name per line
pub fn fzf_input(projects: &Vec<Repo>) -> (r: String)
    ensures
        r@ == lines_of(names_of(projects@)),
{
    let mut r = String::new();
    let mut i: usize = 0;
    while i < projects.len()
        invariant
            i <= projects.len(),
            r@ == lines_of(names_of(projects@.subrange(0, i as int))),
        decreases projects.len() - i,
    {
        r.append(projects[i].name_str());
        r.append("\n");
        proof {
            let before = names_of(projects@.subrange(0, i as int));
            let after = names_of(projects@.subrange(0, i + 1));
            assert(after.drop_last() =~= before);
        }
        i += 1;
    }
    proof {
        assert(projects@.subrange(0, projects@.len() as int) =~= projects@);
    }
    r
}

/// A flag with its value, `--<flag>=<value>`
pub open spec fn flag_text(flag: Seq<char>, value: Seq<char>) -> Seq<char> {
    "--"@ + flag + "="@ + value
}

fn flag(name: &str, value: &str) -> (r: String)
    ensures
        r@ == flag_text(name@, value@),
{
    let mut r = String::from_str("--");
    r.append(name);
    r.append("=");
    r.append(value);
    r
}

/// The arguments fzf is started with: the configured layout, border and
/// border label, and the prompt
pub fn fzf_args(prompt: &str, config: &FzfConfig) -> (r: Vec<String>)
    ensures
        r@.len() == 4,
        r@[0]@ == flag_text("layout"@, layout_text(config.spec_layout())),
        r@[1]@ == flag_text("border"@, border_text(config.spec_border())),
        r@[2]@ == flag_text("border-label"@, config.spec_border_label()),
        r@[3]@ == flag_text("prompt"@, prompt@),
{
    let layout = layout_to_string(&config.layout());
    let border = border_to_string(&config.border());
    let label = config.border_label();
    let mut r: Vec<String> = Vec::new();
    r.push(flag("layout", layout.as_str()));
    r.push(flag("border", border.as_str()));
    r.push(flag("border-label", label.as_str()));
    r.push(flag("prompt", prompt));
    r
}

/// Builds the outcome of one fzf run: the selected project's name, read from
/// fzf's stdout without surrounding whitespace (empty if the user aborted),
/// and the merged list of projects that were offered, the local projects
/// first. In delete mode only the local projects are offered.
///
/// # Parameters
///
/// - `output`         What fzf printed
/// - `local_projects` The projects found on disk
/// - `users_repos`    The user's repositories that are not local
/// - `delete_mode`    Whether the selected project will be deleted
pub fn run_fzf(output: &str, local_projects: &Vec<Repo>, users_repos: &Vec<Repo>, delete_mode: bool) -> (r: (String, Vec<Repo>))
    ensures
        r.0@ == trimmed(output@),
        delete_mode ==> views(r.1@) == views(local_projects@),
        !delete_mode ==> views(r.1@) == views(local_projects@) + views(users_repos@),
{
    let project = trim(output);
    let mut projects: Vec<Repo> = Vec::new();
    let mut i: usize = 0;
    while i < local_projects.len()
        invariant
            i <= local_projects.len(),
            views(projects@) == views(local_projects@.subrange(0, i as int)),
        decreases local_projects.len() - i,
    {
        let ghost before = projects@;
        projects.push(local_projects[i].duplicate());
        proof {
            assert(projects@ == before.push(projects@.last()));
            assert(views(projects@) =~= views(before).push(local_projects@[i as int]@));
            assert(views(projects@) =~= views(local_projects@.subrange(0, i + 1)));
        }
        i += 1;
    }
    proof {
        assert(local_projects@.subrange(0, local_projects@.len() as int) =~= local_projects@);
    }
    if !delete_mode {
        let mut j: usize = 0;
        while j < users_repos.len()
            invariant
                j <= users_repos.len(),
                views(projects@) == views(local_projects@) + views(users_repos@.subrange(0, j as int)),
            decreases users_repos.len() - j,
        {
            let ghost before = projects@;
            projects.push(users_repos[j].duplicate());
            proof {
                assert(views(projects@) =~= views(before).push(users_repos@[j as int]@));
                assert(views(projects@) =~= views(local_projects@) + views(users_repos@.subrange(0, j + 1)));
            }
            j += 1;
        }
        proof {
            assert(users_repos@.subrange(0, users_repos@.len() as int) =~= users_repos@);
        }
    }
    (project, projects)
}

/// The project the user picked: the first of `projects` with the selected
/// name, or `None` where no project has it (the user aborted)
pub fn selected_project(projects: &Vec<Repo>, name: &String) -> (r: Option<Repo>)
    ensures
        r is None <==> !names_of(projects@).contains(name@),
        r matches Some(p) ==> {
            exists|i: int| {
                &&& 0 <= i < projects@.len()
                &&& p@ == projects@[i]@
                &&& p@.name == name@
                &&& forall|j: int| 0 <= j < i ==> projects@[j]@.name != name@
            }
        },
{
    let mut i: usize = 0;
    while i < projects.len()
        invariant
            i <= projects.len(),
            forall|j: int| 0 <= j < i ==> projects@[j]@.name != name@,
        decreases projects.len() - i,
    {
        let n = projects[i].name();
        if n.eq(name) {
            assert(names_of(projects@)[i as int] == name@);
            return Some(projects[i].duplicate());
        }
        i += 1;
    }
    proof {
        if names_of(projects@).contains(name@) {
            let k = choose|k: int| 0 <= k < names_of(projects@).len() && names_of(projects@)[k] == name@;
            assert(projects@[k]@.name == name@);
        }
    }
    None
}

} // verus!
