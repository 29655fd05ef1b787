[package]
name = "ankiconnect_mcp"
version = "0.1.0"
edition = "2021"
publish = false

[dependencies]
ankiconnect-rs = "*"
anyhow = "1"
async-trait = "0.1"
serde = { version = "1", features = ["derive"] }
serde_json = "1"
tokio = { version = "1", features = ["io-std", "io-util", "macros", "rt-multi-thread"] }
tracing = "0.1"
tracing-subscriber = { version = "0.3", features = ["env-filter", "fmt"] }
