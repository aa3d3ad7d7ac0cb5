//! This module contains the configuration of the tmuxinator integration

use crate::config::fzf::or_default;
use vstd::prelude::*;

verus! {

/// The name of the window a new session opens with, by default
pub const DEFAULT_WINDOW_NAME: &'static str = "editor";

/// The command run in that window, by default
pub const DEFAULT_ON_OPEN: &'static str = "nvim .";

/// Whether the session config is written anew on every launch, by default
pub const DEFAULT_FRESH_CONFIG: bool = false;

/// The `[tmuxinator]` section of the configuration
#[derive(Debug, Clone, PartialEq, Eq)]
pub struct TmuxinatorConfig {
    /// The name of the window created
    ///
    /// Default: `editor`
    window_name: Option<String>,
    /// The command to run on opening tmux
    ///
    /// Default: `nvim .`
    on_open: Option<String>,
    /// Whether to write the session config even where one exists
    ///
    /// Default: `false`
    fresh_config: Option<bool>,
}

impl TmuxinatorConfig {
    /// The raw `window_name` key
    pub closed spec fn spec_raw_window_name(self) -> Option<String> {
        self.window_name
    }

    /// The raw `on_open` key
    pub closed spec fn spec_raw_on_open(self) -> Option<String> {
        self.on_open
    }

    /// The raw `fresh_config` key
    pub closed spec fn spec_raw_fresh_config(self) -> Option<bool> {
        self.fresh_config
    }

    /// Whether every key is absent
    pub open spec fn spec_is_empty(self) -> bool {
        &&& self.spec_raw_window_name() is None
        &&& self.spec_raw_on_open() is None
        &&& self.spec_raw_fresh_config() is None
    }

    /// The resolved window name
    pub open spec fn spec_window_name(self) -> Seq<char> {
        or_default(self.spec_raw_window_name(), DEFAULT_WINDOW_NAME@)
    }

    /// The resolved command
    pub open spec fn spec_on_open(self) -> Seq<char> {
        or_default(self.spec_raw_on_open(), DEFAULT_ON_OPEN@)
    }

    /// The resolved `fresh_config`
    pub open spec fn spec_fresh_config(self) -> bool {
        match self.spec_raw_fresh_config() {
            Some(b) => b,
            None => DEFAULT_FRESH_CONFIG,
        }
    }

    /// A copy of this section, equal to it
    pub fn duplicate(&self) -> (r: TmuxinatorConfig)
        ensures
            r == *self,
    {
        TmuxinatorConfig { window_name: self.window_name.clone(), on_open: self.on_open.clone(), fresh_config: self.fresh_config.clone() }
    }

    /// A section with the given raw values, `None` for an absent key
    pub fn new(window_name: Option<String>, on_open: Option<String>, fresh_config: Option<bool>) -> (r:
        TmuxinatorConfig)
        ensures
            r.spec_raw_window_name() == window_name,
            r.spec_raw_on_open() == on_open,
            r.spec_raw_fresh_config() == fresh_config,
    {
        TmuxinatorConfig { window_name, on_open, fresh_config }
    }

    /// An empty section: every key absent
    pub fn empty() -> (r: TmuxinatorConfig)
        ensures
            r.spec_is_empty(),
    {
        TmuxinatorConfig { window_name: None, on_open: None, fresh_config: None }
    }

    /// The `window_name` key as written, if any
    pub fn raw_window_name(&self) -> (r: Option<String>)
        ensures
            r == self.spec_raw_window_name(),
    {
        self.window_name.clone()
    }

    /// The `on_open` key as written, if any
    pub fn raw_on_open(&self) -> (r: Option<String>)
        ensures
            r == self.spec_raw_on_open(),
    {
        self.on_open.clone()
    }

    /// The `fresh_config` key as written, if any
    pub fn raw_fresh_config(&self) -> (r: Option<bool>)
        ensures
            r == self.spec_raw_fresh_config(),
    {
        self.fresh_config
    }

    /// The name of the window created
    ///
    /// Default: `editor`
    pub fn window_name(&self) -> (r: String)
        ensures
            r@ == self.spec_window_name(),
    {
        match &self.window_name {
            Some(w) => w.clone(),
            None => String::from_str(DEFAULT_WINDOW_NAME),
        }
    }

    /// The command to run on opening tmux
    ///
    /// Default: `nvim .`
    pub fn on_open(&self) -> (r: String)
        ensures
            r@ == self.spec_on_open(),
    {
        match &self.on_open {
            Some(c) => c.clone(),
            None => String::from_str(DEFAULT_ON_OPEN),
        }
    }

    /// Whether to write the session config even where one exists
    ///
    /// Default: `false`
    pub fn fresh_config(&self) -> (r: bool)
        ensures
            r == self.spec_fresh_config(),
    {
        match self.fresh_config {
            Some(b) => b,
            None => DEFAULT_FRESH_CONFIG,
        }
    }
}

} // verus!
