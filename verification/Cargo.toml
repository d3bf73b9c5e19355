[package]
name = "z_stack"
version = "0.1.0"
edition = "2021"
publish = false

[dependencies]
tokio-util = { version = "0.7", features = ["codec"] }
tokio-serial = { version = "5", default-features = false }
serde = { version = "1", features = ["derive"] }
serde_json = "1"
syn = { version = "2", features = ["full"] }
quote = "1"
heck = "*"
futures = "0.3"
