[package]
name = "yukin"
version = "0.1.0"
edition = "2021"
publish = false

[dependencies]
sha2 = "=0.10.9"
hex = "=0.4.3"
chrono = { version = "=0.4.45", default-features = false, features = ["clock", "std"] }
uuid = { version = "=1.29.0", features = ["v7"] }
path-clean = "=1.0.1"
reqwest = { version = "=0.12.28", default-features = false, features = ["json", "stream"] }
serde = { version = "=1.0.229", features = ["derive"] }
serde_json = "=1.0.154"
tokio = { version = "=1.54.1", features = ["fs", "io-util", "rt", "macros"] }
dirs = "=6.0.0"
trash = "=5.2.9"
eventsource-stream = "=0.2.3"
futures-util = "=0.3.34"
glob = "0.3"
