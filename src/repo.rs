//! This module contains the type that stands for one project

use vstd::prelude::*;

verus! {

/// A path made of a directory and a name below it, with one `/` between them
pub open spec fn join_path(dir: Seq<char>, name: Seq<char>) -> Seq<char> {
    if dir.len() > 0 && dir.last() == '/' {
        dir + name
    } else {
        dir + "/"@ + name
    }
}

/// Joins a name onto a directory, as `join_path` says
pub fn join(dir: &str, name: &str) -> (r: String)
    ensures
        r@ == join_path(dir@, name@),
{
    let mut r = String::from_str(dir);
    let n = dir.unicode_len();
    if n == 0 || dir.get_char(n - 1) != '/' {
        r.append("/");
    }
    r.append(name);
    proof {
        reveal_strlit("/");
    }
    r
}

/// What a `Repo` stands for
pub struct RepoView {
    pub name: Seq<char>,
    pub local: bool,
    pub url: Option<Seq<char>>,
}

/// A project, found on disk or on GitHub
#[derive(Debug, Clone, PartialEq, Eq)]
pub struct Repo {
    name: String,
    local: bool,
    url: Option<String>,
}

impl View for Repo {
    type V = RepoView;

    closed spec fn view(&self) -> RepoView {
        RepoView {
            name: self.name@,
            local: self.local,
            url: match self.url {
                Some(u) => Some(u@),
                None => None,
            },
        }
    }
}

/// The views of a sequence of projects
pub open spec fn views(s: Seq<Repo>) -> Seq<RepoView> {
    s.map_values(|r: Repo| r@)
}

/// The names of a sequence of projects
pub open spec fn names_of(s: Seq<Repo>) -> Seq<Seq<char>> {
    s.map_values(|r: Repo| r@.name)
}

impl Repo {
    /// A project known from the hosting service carries its URL
    pub open spec fn wf(&self) -> bool {
        !self@.local ==> self@.url is Some
    }

    /// A project that has a directory under the projects directory
    pub fn local(name: String) -> (r: Repo)
        ensures
            r@ == (RepoView { name: name@, local: true, url: None }),
            r.wf(),
    {
        Repo { name, local: true, url: None }
    }

    /// A project known only from the hosting service
    pub fn remote(name: String, url: String) -> (r: Repo)
        ensures
            r@ == (RepoView { name: name@, local: false, url: Some(url@) }),
            r.wf(),
    {
        Repo { name, local: false, url: Some(url) }
    }

    /// A copy of this project, equal to it
    pub fn duplicate(&self) -> (r: Repo)
        ensures
            r == *self,
            r@ == self@,
    {
        Repo { name: self.name.clone(), local: self.local, url: self.url.clone() }
    }

    /// The project's name
    pub fn name(&self) -> (r: String)
        ensures
            r@ == self@.name,
    {
        self.name.clone()
    }

    /// The project's name, borrowed
    pub fn name_str(&self) -> (r: &str)
        ensures
            r@ == self@.name,
    {
        self.name.as_str()
    }

    /// Whether the project has a directory under the projects directory
    pub fn is_local(&self) -> (r: bool)
        ensures
            r == self@.local,
    {
        self.local
    }

    /// The URL the project is cloned from, where it came from the hosting service
    pub fn url(&self) -> (r: Option<String>)
        ensures
            r matches Some(u) ==> self@.url == Some(u@),
            r is None ==> self@.url is None,
    {
        self.url.clone()
    }

    /// The directory of the project under the projects directory
    pub fn get_project_root(&self, projects_dir: &str) -> (r: String)
        ensures
            r@ == join_path(projects_dir@, self@.name),
    {
        join(projects_dir, self.name.as_str())
    }
}

} // verus!
