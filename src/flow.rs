//! This module contains the decisions of one run of the launcher: what
//! follows the selection, and what deleting a project removes

use crate::repo::Repo;
use crate::tmuxinator::{config_exists, config_file_name, delete_tmuxinator};
use crate::repo::join_path;
use crate::text::{lower_of, lowercase, trim, trimmed};
use vstd::prelude::*;

verus! {

/// The next thing the launcher does
#[derive(Debug, Clone, Copy, PartialEq, Eq, Structural)]
pub enum Action {
    /// Stop, successfully, without doing anything more
    Finish,
    /// Run the deletion checks and ask before deleting the project
    Delete,
    /// Ask whether the remote project should be cloned
    AskToClone,
    /// Clone the remote project into the projects directory, then launch it
    Clone,
    /// Launch the project's tmuxinator session
    Launch,
}

/// What follows the selection
///
/// # Parameters
///
/// - `selected`        The project picked in fzf, `None` if none was
/// - `delete_mode`     Whether the selected project is to be deleted
/// - `confirm_cloning` Whether to ask before cloning a project that is not local
pub fn first_action(selected: &Option<Repo>, delete_mode: bool, confirm_cloning: bool) -> (r: Action)
    ensures
        selected is None ==> r == Action::Finish,
        selected matches Some(p) ==> r == (if delete_mode {
            Action::Delete
        } else if p@.local {
            Action::Launch
        } else if confirm_cloning {
            Action::AskToClone
        } else {
            Action::Clone
        }),
{
    match selected {
        None => Action::Finish,
        Some(p) => {
            if delete_mode {
                Action::Delete
            } else if p.is_local() {
                Action::Launch
            } else if confirm_cloning {
                Action::AskToClone
            } else {
                Action::Clone
            }
        },
    }
}

/// What follows the answer to the question whether to clone: cloning on
/// yes, stopping successfully on no
pub fn after_clone_answer(clone: bool) -> (r: Action)
    ensures
        r == (if clone { Action::Clone } else { Action::Finish }),
{
    if clone {
        Action::Clone
    } else {
        Action::Finish
    }
}

/// Whether a lowercased answer is one of the accepted words: `y`, `yes`,
/// `n` or `no`
pub open spec fn is_answer_word(w: Seq<char>) -> bool {
    w == "y"@ || w == "yes"@ || w == "n"@ || w == "no"@
}

/// Whether a lowercased answer says yes: `y` or `yes`
pub open spec fn is_yes_word(w: Seq<char>) -> bool {
    w == "y"@ || w == "yes"@
}

fn equals(s: &String, word: &str) -> (r: bool)
    ensures
        r == (s@ == word@),
{
    s.eq(&String::from_str(word))
}

/// Whether an answer, already trimmed and lowercased, is one of the words
/// the question to clone accepts
pub fn answer_word(lowered: &str) -> (r: bool)
    ensures
        r == is_answer_word(lowered@),
{
    let w = String::from_str(lowered);
    equals(&w, "y") || equals(&w, "yes") || equals(&w, "n") || equals(&w, "no")
}

/// Whether an answer, already lowercased, says yes
pub fn yes_word(lowered: &str) -> (r: bool)
    ensures
        r == is_yes_word(lowered@),
{
    let w = String::from_str(lowered);
    equals(&w, "y") || equals(&w, "yes")
}

/// Whether the question to clone accepts an answer: trimmed and lowercased,
/// it must be `y`, `yes`, `n` or `no`; another answer asks again
pub fn valid_clone_answer(answer: &str) -> (r: bool)
    ensures
        r == is_answer_word(lower_of(trimmed(answer@))),
{
    let t = trim(answer);
    let l = lowercase(t.as_str());
    answer_word(l.as_str())
}

/// Whether an accepted answer to the question to clone says yes: lowercased,
/// it is `y` or `yes`
pub fn clone_answer_is_yes(answer: &str) -> (r: bool)
    ensures
        r == is_yes_word(lower_of(answer@)),
{
    let l = lowercase(answer);
    yes_word(l.as_str())
}

/// The question asked before a project is deleted, `Delete <name>?`
pub fn delete_question(repo: &Repo) -> (r: String)
    ensures
        r@ == "Delete "@ + repo@.name + "?"@,
{
    let mut r = String::from_str("Delete ");
    r.append(repo.name_str());
    r.append("?");
    r
}

/// What deleting a project removes: its session config file, if it has
/// one, and its directory
pub struct DeletePlan {
    pub config_file: Option<String>,
    pub project_dir: Option<String>,
}

/// Deletes a project from the projects directory, once the user has answered
/// the final question
///
/// # Parameters
///
/// - `repo`         The project to delete
/// - `confirmed`    Whether the user said yes to deleting it
/// - `config_files` The names of the files in the tmuxinator config directory
/// - `config_dir`   The tmuxinator config directory
/// - `projects_dir` The directory that holds the local projects
///
/// # Returns
///
/// Nothing to remove where the user declined; else the session config file,
/// where one exists, and the project's directory
pub fn delete_project(
    repo: &Repo,
    confirmed: bool,
    config_files: &Vec<String>,
    config_dir: &str,
    projects_dir: &str,
) -> (r: DeletePlan)
    ensures
        !confirmed ==> r.config_file is None && r.project_dir is None,
        confirmed ==> (r.config_file is Some <==> config_exists(config_files@, repo@.name)),
        r.config_file matches Some(p) ==> p@ == join_path(config_dir@, config_file_name(repo@.name)),
        confirmed ==> r.project_dir is Some,
        r.project_dir matches Some(d) ==> d@ == join_path(projects_dir@, repo@.name),
{
    if !confirmed {
        return DeletePlan { config_file: None, project_dir: None };
    }
    let config_file = delete_tmuxinator(repo, config_files, config_dir);
    let project_dir = repo.get_project_root(projects_dir);
    DeletePlan { config_file, project_dir: Some(project_dir) }
}

} // verus!
