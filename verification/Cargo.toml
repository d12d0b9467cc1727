[package]
name = "noyalib_mcp"
version = "0.0.48"
edition = "2021"
publish = false

[dependencies]
noyalib = { version = "=0.0.48", features = ["validate-schema"] }
serde = { version = "=1.0.229", features = ["derive"] }
serde_json = "=1.0.154"
schemars = "=1.2.3"
rmcp = { version = "=3.4.1", features = ["server", "macros", "transport-io"] }
tokio = { version = "=1.54.1", features = ["macros", "rt-multi-thread", "io-std"] }
