[package]
name = "dog_teleop"
version = "0.1.0"
edition = "2021"
publish = false

[dependencies]
serde = { version = "1", features = ["derive"] }
serde_json = "1"
tokio = { version = "1", features = ["rt", "rt-multi-thread", "time", "sync", "macros"] }
tokio-tungstenite = "0.26"
futures-util = "0.3"
gilrs = "0.11"
