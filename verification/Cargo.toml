[package]
name = "epazote"
version = "0.1.0"
edition = "2021"
publish = false

[dependencies]
regex = "*"
url = "*"
x509-parser = "*"
reqwest = { version = "*", default-features = false, features = ["json"] }
tokio = { version = "*", features = ["full"] }
axum = "*"
prometheus = "*"
clap = "*"
serde = { version = "*", features = ["derive"] }
serde_json = "*"
serde_yaml = "*"
anyhow = "*"
rustls = { version = "*", default-features = false, features = ["ring", "std", "tls12", "logging"] }
tokio-rustls = { version = "*", default-features = false, features = ["ring", "tls12", "logging"] }
rustls-native-certs = "*"
futures = "*"
