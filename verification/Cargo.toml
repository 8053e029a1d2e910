[package]
name = "signal_mcp"
version = "0.1.0"
edition = "2021"
publish = false

[dependencies]
serde_json = "*"
serde = { version = "*", features = ["derive"] }
anyhow = "*"
async-trait = "*"
rust-mcp-sdk = "*"
tokio = { version = "*", features = ["macros", "rt-multi-thread", "process", "signal", "io-util"] }
config = "*"
tracing = "*"
tracing-subscriber = { version = "*", features = ["env-filter", "fmt"] }
