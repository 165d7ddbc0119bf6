[package]
name = "wayle"
version = "0.1.0"
edition = "2021"
publish = false

[dependencies]
wildcard = "*"
zbus = { version = "5", default-features = false, features = ["tokio"] }
serde = { version = "1", features = ["derive"] }
serde_json = "1"
tokio = { version = "1", features = ["full"] }
tokio-stream = { version = "*", features = ["sync"] }
tokio-util = "*"
futures = "*"
tracing = "*"
chrono = "*"
png = "*"
rusqlite = { version = "*", features = ["bundled"] }
niri-ipc = "*"
nvml-wrapper = "*"
async-trait = "*"
derive_more = { version = "*", features = ["debug"] }
thiserror = "*"
