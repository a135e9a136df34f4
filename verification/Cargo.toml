[package]
name = "warpgate-core"
version = "0.1.0"
edition = "2021"
publish = false

[dependencies]
url = "=2.5.8"
uuid = { version = "=1.29.0", features = ["v4"] }
data-encoding = "=2.11.1"
chrono = "=0.4.45"
bytes = "=1.12.1"
thiserror = "=1.0.69"
tokio = { version = "=1.54.1", features = ["sync", "fs", "rt"] }
serde = { version = "1", features = ["derive"] }
serde_json = "1"
russh = "=0.60.3"
poem = { version = "=3.1.12", default-features = false, features = ["session"] }
