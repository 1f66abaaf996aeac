[package]
name = "nba_rs"
version = "0.1.0"
edition = "2021"
publish = false

[dependencies]
serde_json = "=1.0.151"
hyper = { version = "=1.12.0", features = ["client", "http1"] }
hyper-util = { version = "0.1", features = ["client-legacy", "http1", "tokio"] }
http-body-util = "0.1"
tokio = { version = "=1.53.2", features = ["rt"] }
url = "=2.5.8"
