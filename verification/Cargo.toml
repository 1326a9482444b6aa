[package]
name = "saberdb"
version = "0.1.0"
edition = "2021"
publish = false

[dependencies]
serde = { version = "1", features = ["derive"] }
serde_json = "1"
tokio = { version = "1", features = ["fs", "sync", "rt", "rt-multi-thread"] }
async-trait = "0.1"
thiserror = "1"
