[package]
name = "camrobot"
version = "0.1.0"
edition = "2021"
publish = false

[dependencies]
futures-util = "0.3"
rppal = "*"
rumq-client = "0.1.0-alpha.1"
serde = { version = "1", features = ["derive"] }
serde_json = "1"
tokio = { version = "0.2", features = ["macros", "rt-core", "sync"] }
