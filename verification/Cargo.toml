[package]
name = "rasta"
version = "0.2.0"
edition = "2021"
publish = false

[dependencies]
anyhow = "=1.0.104"
async-tungstenite = { version = "=0.13.1", features = ["tokio-runtime", "tokio-rustls"] }
fastrand = "=2.5.0"
futures = "=0.3.34"
log = "=0.4.34"
ring = "=0.17.14"
rustls-native-certs = "=0.5.0"
serde = { version = "=1.0.229", features = ["derive"] }
serde_json = "=1.0.151"
reqwest = { version = "=0.12.28", default-features = false, features = ["json", "rustls-tls"] }
tokio = { version = "=1.53.2", features = ["full"] }
tokio-rustls = "=0.22.0"
