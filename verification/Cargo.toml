[package]
name = "blockchain"
version = "0.1.0"
edition = "2021"
publish = false

[dependencies]
chrono = { version = "0.4", features = ["serde"] }
clap = "2"
config = { version = "0.10", default-features = false, features = ["json"] }
data-encoding = "2"
env_logger = "0.7"
futures = "0.3"
serde = { version = "1", features = ["derive"] }
serde_json = "1"
sha2 = "0.8"
tarpc = { version = "0.20", features = ["full"] }
tokio = { version = "0.2", features = ["full"] }
tokio-serde = { version = "0.6", features = ["bincode"] }
warp = { version = "0.2", default-features = false }
