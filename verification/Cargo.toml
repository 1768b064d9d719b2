[package]
name = "agent"
version = "0.1.0"
edition = "2021"
publish = false

[dependencies]
nota = "0.1.0"
reqwest = { version = "0.12.28", default-features = false, features = ["json", "rustls-tls"] }
rkyv = "0.8.18"
serde = { version = "1.0.229", features = ["derive"] }
serde_json = "1.0.154"
tokio = { version = "1.54.1", features = ["full"] }
thiserror = "2.0.21"

[dev-dependencies]
tempfile = "3.27.0"
