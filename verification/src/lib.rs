//! Remote-branch housekeeping for a git repository: who authored which remote
//! branch, how many branches each author has, and a confirmed, step-by-step
//! deletion of one author's branches.
//!
//! The library holds the decisions only. It never touches a repository, a
//! terminal or a process: callers hand it what they read and carry out the
//! actions it returns.

pub mod branch;
pub mod cleanup;
pub mod command;
pub mod error;
pub mod identity;
pub mod invocation;
pub mod listing;
pub mod run;
pub mod stats;
pub mod text;
