[package]
name = "session_manager"
version = "0.1.0"
edition = "2021"
publish = false

[dependencies]
async-trait = "0.1"
log = "0.4"
russh = { version = "0.38", features = ["openssl"] }
russh-keys = { version = "0.38", features = ["openssl"] }
serde = { version = "1", features = ["derive"] }
tokio = { version = "1", features = ["sync", "rt", "macros"] }
uuid = { version = "1", features = ["v4"] }
vt100 = "0.15"
