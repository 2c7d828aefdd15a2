//! Searching file contents and file names with ripgrep.

pub mod args;
pub mod content;
pub mod failure;
pub mod file_names;
pub mod groups;
pub mod requests;
pub mod rg_path;
pub mod stream;
