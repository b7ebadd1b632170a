[package]
name = "notepush"
version = "0.1.0"
edition = "2021"
publish = false

[dependencies]
nostr = { version = "=0.39.0", default-features = false, features = ["std"] }
base64 = "=0.22.1"
serde_json = "=1.0.154"
matchit = "=0.8.6"
urlencoding = "=2.1.3"
serde = { version = "=1.0.229", features = ["derive"] }
tokio = { version = "=1.54.1", features = ["full"] }
hyper = { version = "=1.12.0", features = ["full"] }
hyper-util = { version = "=0.1.21", features = ["full"] }
http-body-util = "=0.1.5"
hyper-tungstenite = "=0.30.0"
tungstenite = "=0.30.0"
futures = "=0.3.34"
log = "=0.4.35"
env_logger = "=0.11.11"
dotenv = "=0.15.0"
config = { version = "=0.15.27", default-features = false, features = ["yaml"] }
uuid = { version = "=1.29.0", features = ["v4"] }
a2 = "=0.10.0"
r2d2 = "*"
r2d2_sqlite = "*"
