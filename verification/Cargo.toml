[package]
name = "clip_sync"
version = "0.1.0"
edition = "2021"
publish = false

[dependencies]
arboard = "3"
base64 = "0.22"
dirs = "5"
futures-util = "0.3"
get_if_addrs = "0.5"
hostname = "0.4"
image = { version = "0.25", default-features = false, features = ["png"] }
log = "0.4"
serde = { version = "1", features = ["derive"] }
serde_json = "1"
tokio = { version = "1", features = ["full"] }
tokio-tungstenite = "0.24"
uuid = { version = "1", features = ["v4"] }
