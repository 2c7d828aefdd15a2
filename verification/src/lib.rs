//! Session recovery for a terminal workspace, and the rules behind its commands.

pub mod commands;
pub mod keyed;
pub mod outside;
pub mod paths;
pub mod session_recovery;
pub mod text;
