[package]
name = "edge_worker"
version = "0.1.0"
edition = "2021"
publish = false

[dependencies]
bincode = "=1.3.3"
bitcode = { version = "=0.6.9", features = ["serde"] }
clap = { version = "=4.6.7", features = ["derive"] }
crossbeam = "=0.8.5"
dashmap = "=6.2.1"
eyre = "=0.6.14"
hex = "=0.4.3"
once_cell = "=1.21.4"
rayon = "=1.12.0"
serde = { version = "=1.0.229", features = ["derive"] }
serde_json = "=1.0.154"
tokio = { version = "1", default-features = false, features = ["fs", "macros", "rt-multi-thread", "sync", "time"] }
toml = "=0.8.23"
tracing = "=0.1.44"
tracing-subscriber = "=0.3.23"
openvm-sdk = { version = "=2.0.2", default-features = false }
openvm-sdk-config = { version = "=2.0.2", default-features = false }
openvm-stark-backend = { version = "=2.0.1", default-features = false }
openvm-stark-sdk = { version = "=2.0.1", default-features = false }
openvm-continuations = { version = "=2.0.2", default-features = false }
openvm-verify-stark-host = { version = "=2.0.2", default-features = false }
