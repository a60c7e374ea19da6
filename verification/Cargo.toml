[package]
name = "agent_broker"
version = "0.1.0"
edition = "2021"
publish = false

[dependencies]
openraft = { version = "=0.9.25", features = ["serde", "storage-v2", "generic-snapshot-data"] }
redb = "3"
rustix = { version = "1", features = ["fs"] }
rustls = { version = "0.23", default-features = false, features = ["ring", "std"] }
rustls-pemfile = "2"
serde = { version = "1", features = ["derive"] }
serde_json = "1"
tempfile = "3"
tokio = { version = "1", features = ["rt-multi-thread", "time", "net", "io-util", "sync"] }

[dev-dependencies]
rcgen = "0.14"
