[package]
name = "oauth_callback"
version = "0.1.0"
edition = "2021"
publish = false

[dependencies]
portpicker = "*"
serde = { version = "1", features = ["derive"] }
tokio = { version = "1", features = ["net", "io-util", "time", "sync", "rt-multi-thread", "macros"] }
