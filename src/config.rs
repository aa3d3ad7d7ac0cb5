//! The launcher's configuration, one section per tool

pub mod fzf;
pub mod github;
pub mod tmuxinator;

use crate::config::fzf::FzfConfig;
use crate::config::github::GithubConfig;
use crate::config::tmuxinator::TmuxinatorConfig;
use vstd::prelude::*;

verus! {

/// The whole configuration file: each section may be absent
#[derive(Debug, Clone, PartialEq, Eq)]
pub struct WorkflowsConfig {
    fzf: Option<FzfConfig>,
    tmuxinator: Option<TmuxinatorConfig>,
    github: Option<GithubConfig>,
}

impl WorkflowsConfig {
    /// The raw `[fzf]` section
    pub closed spec fn spec_raw_fzf(self) -> Option<FzfConfig> {
        self.fzf
    }

    /// The raw `[tmuxinator]` section
    pub closed spec fn spec_raw_tmuxinator(self) -> Option<TmuxinatorConfig> {
        self.tmuxinator
    }

    /// The raw `[github]` section
    pub closed spec fn spec_raw_github(self) -> Option<GithubConfig> {
        self.github
    }

    /// A configuration made of the given sections, `None` for an absent one
    pub fn new(
        fzf: Option<FzfConfig>,
        tmuxinator: Option<TmuxinatorConfig>,
        github: Option<GithubConfig>,
    ) -> (r: WorkflowsConfig)
        ensures
            r.spec_raw_fzf() == fzf,
            r.spec_raw_tmuxinator() == tmuxinator,
            r.spec_raw_github() == github,
    {
        WorkflowsConfig { fzf, tmuxinator, github }
    }

    /// The configuration used when there is no file: every section absent
    pub fn empty() -> (r: WorkflowsConfig)
        ensures
            r.spec_raw_fzf() is None,
            r.spec_raw_tmuxinator() is None,
            r.spec_raw_github() is None,
    {
        WorkflowsConfig { fzf: None, tmuxinator: None, github: None }
    }

    /// The `[fzf]` section, empty where it is absent
    pub fn fzf(&self) -> (r: FzfConfig)
        ensures
            self.spec_raw_fzf() matches Some(f) ==> r == f,
            self.spec_raw_fzf() is None ==> r.spec_is_empty(),
    {
        match &self.fzf {
            Some(f) => f.duplicate(),
            None => FzfConfig::empty(),
        }
    }

    /// The `[tmuxinator]` section, empty where it is absent
    pub fn tmuxinator(&self) -> (r: TmuxinatorConfig)
        ensures
            self.spec_raw_tmuxinator() matches Some(t) ==> r == t,
            self.spec_raw_tmuxinator() is None ==> r.spec_is_empty(),
    {
        match &self.tmuxinator {
            Some(t) => t.duplicate(),
            None => TmuxinatorConfig::empty(),
        }
    }

    /// The `[github]` section, empty where it is absent
    pub fn github(&self) -> (r: GithubConfig)
        ensures
            self.spec_raw_github() matches Some(g) ==> r == g,
            self.spec_raw_github() is None ==> r.spec_is_empty(),
    {
        match &self.github {
            Some(g) => *g,
            None => GithubConfig::empty(),
        }
    }
}

} // verus!
