[package]
name = "firehose"
version = "0.1.0"
edition = "2021"
publish = false

[dependencies]
rand = "=0.10.3"
tokio = { version = "=1.53.2", features = ["rt", "sync", "time", "macros", "net"] }
axum = { version = "=0.8.9", features = ["ws"] }
serde = { version = "=1.0.229", features = ["derive"] }
serde_json = "=1.0.151"
serde_ipld_dagcbor = "=0.7.0"
atrium-api = "=0.25.8"
ipld-core = "=0.4.3"
reqwest = { version = "=0.13.5", default-features = false, features = ["json"] }
