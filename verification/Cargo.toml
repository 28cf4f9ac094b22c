[package]
name = "leaderboard"
version = "0.1.0"
edition = "2021"
publish = false

[dependencies]
anyhow = "1"
axum = "0.7"
serde = { version = "1", features = ["derive"] }
serde_json = "1"
sqlite = "*"
tokio = { version = "1", features = ["macros", "rt-multi-thread", "net"] }
