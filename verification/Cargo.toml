[package]
name = "rpc_policy_proxy"
version = "0.1.0"
edition = "2021"
publish = false

[dependencies]
base64 = "0.21"
clap = { version = "4", features = ["derive"] }
ethereum-types = "0.14"
eyre = "0.6"
futures = "0.3"
hex = "0.4"
hyper = "0.14"
jsonrpsee = { version = "0.22", features = ["server", "http-client", "macros"] }
once_cell = "1"
serde = { version = "1", features = ["derive"] }
serde_json = { version = "1", features = ["raw_value"] }
serde_yaml = "0.9"
tokio = { version = "1", features = ["macros", "rt-multi-thread"] }
tower = "0.4"
tracing = "0.1"
tracing-subscriber = "0.3"
