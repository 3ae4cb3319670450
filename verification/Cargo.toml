[package]
name = "grox_codex"
version = "0.1.0"
edition = "2021"
publish = false

[dependencies]
serde_json = "1"
anyhow = "1"
async-trait = "0.1"
tokio = { version = "1", features = ["full"] }
tracing = "0.1"
agent-client-protocol = { version = "0.9", features = ["unstable"] }
