[package]
name = "rxqlite-client"
version = "0.1.0"
edition = "2021"
publish = false

[dependencies]
anyhow = "=1.0.104"
futures = "0.3"
reqwest = { version = "=0.12.28", default-features = false, features = ["json", "rustls-tls"] }
rxqlite-common = "=0.1.4"
rxqlite-lite-common = "=0.1.6"
serde = { version = "=1.0.229", features = ["derive"] }
serde_json = "=1.0.154"
tokio = { version = "=1.54.1", features = ["rt-multi-thread", "macros", "time", "sync"] }
tracing = "=0.1.44"
