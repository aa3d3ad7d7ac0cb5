//! A project launcher: pick a local or remote project with a fuzzy finder,
//! clone it when needed, and open it in a tmuxinator session, or delete it.
//!
//! This crate holds the decisions and the text that the launcher produces;
//! running the outside programs is left to the binary around it.

pub mod text;
pub mod config;
pub mod repo;
pub mod projects;
pub mod fzf;
pub mod tmuxinator;
pub mod git;
pub mod flow;
pub mod laws;
