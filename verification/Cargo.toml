[package]
name = "flute-cli-mcp"
version = "0.1.0"
edition = "2021"
publish = false

[dependencies]
rmcp = { version = "*", features = ["server", "macros", "transport-io"] }
schemars = "*"
serde = { version = "1", features = ["derive"] }
serde_json = "1"
which = "*"
tokio = { version = "1", features = ["macros", "rt-multi-thread", "process", "time", "io-std"] }
