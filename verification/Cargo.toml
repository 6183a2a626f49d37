[package]
name = "todo_mcp"
version = "0.1.0"
edition = "2021"
publish = false

[dependencies]
chrono = { version = "=0.4.45", default-features = false, features = ["clock"] }
mcp-server = "=0.1.0"
mcp-spec = "=0.1.0"
serde = { version = "=1.0.229", features = ["derive"] }
serde_json = "=1.0.154"
tokio = { version = "=1.54.1", features = ["io-std"] }
