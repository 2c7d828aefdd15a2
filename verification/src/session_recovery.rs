//! Terminal sessions that outlive the window they were opened in: the daemon
//! that owns them, the clients that find them again, and the registry that is
//! kept on disk.

pub mod bridge;
pub mod client;
pub mod daemon;
pub mod ipc;
pub mod registry;
pub mod save;
pub mod scrollback;
pub mod server;
