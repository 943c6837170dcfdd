[package]
name = "bb_bridge"
version = "0.1.0"
edition = "2021"
publish = false

[dependencies]
libc = "=0.2.190"
reqwest = { version = "=0.12.28", default-features = false }
serde = { version = "=1.0.229", features = ["derive"] }
serde_json = "=1.0.151"
tokio = { version = "=1.53.2", features = ["sync", "macros"] }
