[package]
name = "nicolive_chat"
version = "0.1.0"
edition = "2021"
publish = false

[dependencies]
regex = "1"
urlencoding = "2"
serde_json = "1"
serde = { version = "1", features = ["derive"] }
prost = "0.13"
reqwest = "0.12"
tokio = { version = "1", features = ["rt-multi-thread", "macros"] }
tokio-tungstenite = { version = "0.24", features = ["native-tls"] }
futures-util = "0.3"
log = "0.4"
