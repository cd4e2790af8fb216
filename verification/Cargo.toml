[package]
name = "channels_lite"
version = "0.1.0"
edition = "2021"
publish = false

[dependencies]
failure = "0.1"
iota-lib-rs = "0.4"
serde = { version = "1", features = ["derive"] }
serde_json = "1"
tokio = { version = "1", features = ["macros", "rt"] }
