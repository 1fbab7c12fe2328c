[package]
name = "codetether_agent"
version = "0.1.0"
edition = "2021"
publish = false

[dependencies]
regex = "1"
serde = { version = "1", features = ["derive"] }
serde_json = "1"
tree-sitter = "*"
tree-sitter-rust = "*"
streaming-iterator = "*"
chrono = "*"
uuid = { version = "1", features = ["v4"] }
tokio = { version = "1", features = ["rt-multi-thread", "macros", "fs", "process", "time", "io-util", "sync"] }
anyhow = "1"
async-trait = "*"
tracing = "*"
minio = { version = "*", default-features = false, features = ["rustls-tls"] }
