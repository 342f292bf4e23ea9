[package]
name = "dephy-pproxy"
version = "0.1.0"
edition = "2021"
publish = false

[dependencies]
bytes = "1"
futures = "0.3"
libp2p = { version = "0.53", default-features = false, features = ["ed25519", "macros", "noise", "relay", "tcp", "tokio", "yamux"] }
libp2p-stream = "0.1.0-alpha"
prost = { version = "0.12", default-features = false, features = ["std"] }
reqwest = { version = "0.12", default-features = false, features = ["json"] }
serde = { version = "1", features = ["derive"] }
thiserror = "1"
tokio = { version = "1", features = ["io-util", "macros", "net", "rt", "sync", "time"] }
tokio-util = { version = "0.7", features = ["compat"] }
tracing = "0.1"
