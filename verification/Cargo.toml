[package]
name = "openai-agents"
version = "0.1.0"
edition = "2021"
publish = false

[dependencies]
serde_json = "1"
serde = { version = "1", features = ["derive"] }
async-trait = "0.1"
tokio = { version = "1", features = ["sync", "rt", "macros"] }
futures = "0.3"
async-stream = "0.3"
async-openai = "0.28"
schemars = "0.8"
thiserror = "1"
anyhow = "1"
sqlx = { version = "0.8", default-features = false, features = ["sqlite", "runtime-tokio"] }
