//! This module contains the configuration of the GitHub integration

use vstd::prelude::*;

verus! {

/// Whether the user is asked before a remote project is cloned, by default
pub const DEFAULT_CONFIRM_CLONING: bool = true;

/// The `[github]` section of the configuration
#[derive(Debug, Clone, Copy, PartialEq, Eq)]
pub struct GithubConfig {
    /// Whether to ask before cloning a project that is not local
    ///
    /// Default: `true`
    confirm_cloning: Option<bool>,
}

impl GithubConfig {
    /// The raw `confirm_cloning` key
    pub closed spec fn spec_raw_confirm_cloning(self) -> Option<bool> {
        self.confirm_cloning
    }

    /// Whether every key is absent
    pub open spec fn spec_is_empty(self) -> bool {
        self.spec_raw_confirm_cloning() is None
    }

    /// The resolved `confirm_cloning`
    pub open spec fn spec_confirm_cloning(self) -> bool {
        match self.spec_raw_confirm_cloning() {
            Some(b) => b,
            None => DEFAULT_CONFIRM_CLONING,
        }
    }

    /// A section with the given raw value, `None` for an absent key
    pub fn new(confirm_cloning: Option<bool>) -> (r: GithubConfig)
        ensures
            r.spec_raw_confirm_cloning() == confirm_cloning,
    {
        GithubConfig { confirm_cloning }
    }

    /// An empty section: every key absent
    pub fn empty() -> (r: GithubConfig)
        ensures
            r.spec_is_empty(),
    {
        GithubConfig { confirm_cloning: None }
    }

    /// The `confirm_cloning` key as written, if any
    pub fn raw_confirm_cloning(&self) -> (r: Option<bool>)
        ensures
            r == self.spec_raw_confirm_cloning(),
    {
        self.confirm_cloning
    }

    /// Whether to ask before cloning a project that is not local
    ///
    /// Default: `true`
    pub fn confirm_cloning(&self) -> (r: bool)
        ensures
            r == self.spec_confirm_cloning(),
    {
        match self.confirm_cloning {
            Some(b) => b,
            None => DEFAULT_CONFIRM_CLONING,
        }
    }
}

} // verus!
