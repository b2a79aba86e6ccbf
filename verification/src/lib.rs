//! Core logic of `wt`, a manager for git worktrees: the git invocations that
//! the commands perform, the plans and decisions of the commands, and the text
//! they print. Running processes and touching the file system is left to the
//! caller; every function here computes on plain values.

pub mod diff;
pub mod exec;
pub mod git_ops;
pub mod paths;
pub mod snap;
pub mod status;
pub mod text;
pub mod trunk;
