[package]
name = "sylva-agent"
version = "0.1.0"
edition = "2021"
publish = false

[dependencies]
anyhow = "1"
ed25519-dalek = "2"
rand = "0.8"
serde = { version = "1", features = ["derive"] }
serde_json = "1"
tokio = { version = "1", features = ["macros", "rt-multi-thread", "signal", "time"] }
tonic = { version = "0.14", default-features = false, features = ["channel", "codegen"] }
tracing = "0.1"
tracing-subscriber = "0.3"
windows = { version = "0.58", features = ["Devices_Geolocation", "Foundation"] }
