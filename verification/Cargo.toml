[package]
name = "session_manager"
version = "0.1.0"
edition = "2021"
publish = false

[dependencies]
log = "0.4"
russh = "*"
serde = { version = "1", features = ["derive"] }
sha256 = "1"
tokio = { version = "1", features = ["sync", "macros", "rt", "fs", "io-util"] }
uuid = { version = "1", features = ["v4"] }
vt100 = "0.15"
