[package]
name = "orbit"
version = "0.1.0"
edition = "2021"
publish = false

[dependencies]
serde = { version = "=1.0.229", features = ["derive"] }
serde_json = "=1.0.154"
uuid = { version = "=1.29.0", features = ["v4"] }
toml = "=1.1.8"
zbus = "=5.19.0"
tokio = { version = "=1.54.1", features = ["rt-multi-thread", "time", "macros"] }
clap = { version = "=4.6.7", features = ["derive"] }
reqwest = { version = "=0.12.28", default-features = false, features = ["blocking", "rustls-tls"] }
log = "=0.4.35"
env_logger = "=0.11.11"
tempfile = "=3.27.0"
bardecoder = "=0.5.0"
image = { version = "=0.24.9", default-features = false }
starship-battery = "=0.12.0"
chrono = { version = "=0.4.45", default-features = false, features = ["clock"] }
