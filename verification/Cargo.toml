[package]
name = "barter_data"
version = "0.1.0"
edition = "2021"
publish = false

[dependencies]
barter-integration = "0.5"
chrono = { version = "0.4", features = ["serde"] }
serde = { version = "1", features = ["derive"] }
serde_json = "1"
tokio = { version = "1", features = ["time"] }
