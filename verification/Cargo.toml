[package]
name = "preaching-partner"
version = "0.1.0"
edition = "2021"
publish = false

[dependencies]
hex = "0.4"
rmp-serde = "1"
serde = { version = "1", features = ["derive"] }
tokio = { version = "1", features = ["full"] }
tokio-tungstenite = "*"
futures-util = { version = "0.3", features = ["sink"] }
reqwest = { version = "0.12", default-features = false }
sqlx = { version = "0.8", default-features = false, features = ["sqlite", "runtime-tokio"] }
