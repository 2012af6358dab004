[package]
name = "ovp"
version = "0.1.0"
edition = "2021"
publish = false

[dependencies]
uuid = { version = "1", features = ["v4"] }
axum = "0.7"
tokio = { version = "1", features = ["rt-multi-thread", "macros", "net", "signal"] }
clap = { version = "4", features = ["derive"] }
serde_json = "1"
serde_yaml = "0.9"
openapiv3 = "2"
ureq = "2"
url = "2"
