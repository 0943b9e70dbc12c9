//! A repository session over a version-control engine, without the engine.
//!
//! The engine (opening a repository, reading its index, talking to a remote)
//! is driven by the caller. This crate holds everything that a session
//! decides:
//!
//! - [`run`] turns a command into a conversation: it says what to ask of the
//!   engine next, takes the answer, and ends with the result. The order of the
//!   engine's calls and the handling of every failure are laid down there.
//! - [`git`] holds the rules that the conversation applies: which branch a
//!   checkout switches to, what a pull does with a merge analysis, which
//!   credentials a transfer offers, what a commit and a push look like.
//! - [`git_status`] sorts the entries of a status query into a summary, and
//!   [`branch`] says how branches are shown.
//! - [`addin`] and [`gitlib`] turn every outcome, success or failure, into the
//!   text that a host shows.
use vstd::prelude::*;

pub mod addin;
pub mod analysis;
pub mod branch;
pub mod config;
pub mod error;
pub mod git;
pub mod git_status;
pub mod gitlib;
pub mod run;
pub mod text;

pub use config::{AuthType, Config};
pub use git::Repo;
pub use git_status::{FileStatus, StatusSummary};

verus! {

/// Text that stands in for a name that cannot be shown as text.
pub const INVALID_UTF8: &'static str = "INVALID UTF-8";

} // verus!
