[package]
name = "call_trace"
version = "0.1.0"
edition = "2021"
publish = false

[dependencies]
alloy-primitives = "1"
alloy-rpc-types-trace = "*"
revm = { version = "*", default-features = false, features = ["std"] }
serde = { version = "1", features = ["derive"] }

[dev-dependencies]
serde_json = "1"
