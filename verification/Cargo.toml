[package]
name = "termul_manager"
version = "0.1.0"
edition = "2021"
publish = false

[dependencies]
libc = "=0.2.191"
log = "=0.4.35"
parking_lot = "=0.12.5"
portable-pty = "=0.8.1"
serde = { version = "=1.0.229", features = ["derive"] }
serde_json = "=1.0.154"
tokio = { version = "=1.54.1", features = ["rt", "rt-multi-thread", "sync", "time"] }
uuid = { version = "=1.29.0", features = ["v4"] }
windows-sys = { version = "=0.59.0", features = ["Win32_Storage_FileSystem"] }
