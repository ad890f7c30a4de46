[package]
name = "ethproofs_client"
version = "0.1.0"
edition = "2021"
publish = false

[dependencies]
anyhow = "1"
axum = "0.7"
base64 = "0.22"
bytemuck = "1"
chrono = "0.4"
clap = { version = "4", features = ["derive"] }
dotenv = "0.15"
env_logger = "0.11"
futures-util = "0.3"
lazy_static = "1"
log = "0.4"
prometheus = { version = "0.13", default-features = false }
regex = "1"
reqwest = { version = "0.12", default-features = false, features = ["json", "rustls-tls"] }
serde = { version = "1", features = ["derive"] }
serde_json = "1"
sqlx = { version = "0.8", default-features = false, features = ["mysql", "runtime-tokio"] }
tokio = { version = "1", features = ["full"] }
tokio-tungstenite = "0.24"
url = "2"
zstd = "0.13"
bincode = { version = "2", features = ["serde"] }
