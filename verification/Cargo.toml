[package]
name = "cdl"
version = "0.1.0"
edition = "2021"
publish = false

[dependencies]
uuid = { version = "=1.29.1", features = ["serde"] }
serde = { version = "=1.0.229", features = ["derive"] }
serde_json = "=1.0.154"
tokio = { version = "=1.54.1", features = ["full"] }
hyper = { version = "=0.14.32", features = ["full"] }
lazy_static = "=1.5.1"
anyhow = "=1.0.104"
thiserror = "=1.0.69"
bb8 = "=0.9.1"
bb8-postgres = { version = "=0.9.0", features = ["with-uuid-1", "with-serde_json-1"] }
tonic = "=0.14.9"
async-trait = "=0.1.92"
tracing = "=0.1.44"
reqwest = { version = "=0.13.5", default-features = false, features = ["json"] }
