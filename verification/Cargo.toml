[package]
name = "flockmind"
version = "0.1.0"
edition = "2021"
publish = false

[dependencies]
anyhow = "1"
async-openai = "=0.26.0"
async-trait = "0.1"
axum = "=0.7.9"
bincode = "1"
chrono = { version = "=0.4.45", features = ["serde"] }
clap = { version = "4", features = ["derive"] }
hostname = "=0.4.2"
openraft = { version = "=0.9.25", features = ["serde"] }
pem = "3"
rand = "=0.8.8"
rcgen = { version = "=0.13.2", features = ["pem"] }
reqwest = { version = "=0.12.28", default-features = false, features = ["json", "rustls-tls"] }
serde = { version = "1", features = ["derive"] }
serde_json = "=1.0.154"
sled = "=0.34.7"
tokio = { version = "1", features = ["full"] }
tokio-rustls = { version = "=0.26.6", default-features = false, features = ["ring", "logging", "tls12"] }
toml = "0.8"
tracing = "0.1"
tracing-subscriber = { version = "0.3", features = ["env-filter"] }
uuid = { version = "=1.29.0", features = ["v4", "serde"] }
x509-parser = "=0.16.0"
