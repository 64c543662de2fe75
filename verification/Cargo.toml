[package]
name = "neolaas"
version = "0.1.0"
edition = "2021"
publish = false

[dependencies]
anyhow = "=1.0.104"
axum = "=0.8.9"
chrono = { version = "=0.4.45", features = ["serde"] }
etcd-client = "=0.21.1"
futures = "=0.3.34"
kameo = { version = "=0.22.2", features = ["remote"] }
libp2p = { version = "=0.56.0", features = ["tokio", "tcp", "noise", "yamux", "mdns", "kad", "identify", "macros"] }
macaddr = "=1.0.1"
serde = { version = "=1.0.229", features = ["derive"] }
serde_json = "=1.0.154"
thiserror = "=2.0.21"
tokio = { version = "=1.54.1", features = ["full"] }
tracing = "=0.1.44"
tracing-subscriber = { version = "=0.3.23", features = ["env-filter"] }
uuid = { version = "=1.29.0", features = ["v4", "serde"] }
