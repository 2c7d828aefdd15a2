//! The rules behind the commands that the window calls.

pub mod askpass;
pub mod browser;
pub mod git;
pub mod log;
pub mod migration;
pub mod remote;
pub mod reply;
pub mod search;
pub mod ssh;
pub mod terminal;
pub mod worktree;
