[package]
name = "mock_server"
version = "0.1.0"
edition = "2021"
publish = false

[dependencies]
assert-json-diff = "2"
async-trait = "0.1"
bytes = "1"
reqwest = { version = "0.11", default-features = false, features = ["json"] }
serde = { version = "1", features = ["derive"] }
serde_json = "1"
tokio = { version = "1", features = ["full"] }
tracing = "0.1"
warp = "0.3"
