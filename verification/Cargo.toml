[package]
name = "chatr"
version = "0.1.0"
edition = "2021"
publish = false

[dependencies]
axum = { version = "0.7", features = ["ws"] }
bytes = "1"
chrono = { version = "0.4", default-features = false, features = ["now", "std"] }
clap = { version = "4", default-features = false, features = ["derive", "error-context", "help", "std", "usage"] }
directories = "5"
libp2p = { version = "0.54", features = ["autonat", "dcutr", "ed25519", "gossipsub", "identify", "kad", "macros", "mdns", "noise", "quic", "relay", "tcp", "tokio", "yamux"] }
rand = "0.8"
rusqlite = { version = "0.31", features = ["bundled"] }
serde = { version = "1", features = ["derive"] }
serde_json = "1"
tokio = { version = "1", features = ["macros", "rt-multi-thread", "sync", "time"] }
tracing = "0.1"
tracing-subscriber = { version = "0.3", default-features = false, features = ["fmt", "std"] }
uuid = { version = "1", features = ["v4"] }
