[package]
name = "music_worker"
version = "0.1.0"
edition = "2021"
publish = false

[dependencies]
anyhow = "1"
axum = "0.8"
ferogram = "*"
serde = { version = "1", features = ["derive"] }
serde_json = "1"
tgcalls = "*"
tokio = { version = "1", features = ["macros", "rt-multi-thread", "process", "sync", "net"] }
