[package]
name = "deemix_bot"
version = "0.1.0"
edition = "2021"
publish = false

[dependencies]
base64 = "=0.22.1"
env_logger = "0.11"
futures-util = "0.3"
hmac = "=0.13.0"
log = "0.4"
regex = "=1.13.1"
reqwest = { version = "=0.12.28", default-features = false, features = ["cookies", "json", "multipart", "rustls-tls"] }
serde = { version = "1", features = ["derive"] }
serde_json = "=1.0.154"
sha1 = "=0.11.0"
takecell = "=0.1.1"
teloxide = { version = "=0.17.0", default-features = false, features = ["ctrlc_handler", "macros", "rustls"] }
tokio = { version = "1", features = ["macros", "rt-multi-thread", "sync", "time"] }
tokio-tungstenite = "0.26"
