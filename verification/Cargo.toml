[package]
name = "rustler"
version = "0.1.0"
edition = "2021"
publish = false

[dependencies]
anyhow = "1"
ashpd = { version = "0.11", default-features = false, features = ["tokio"] }
chrono = "0.4"
cpal = "0.15"
dirs = "6"
futures-util = "0.3"
hound = "3"
log = "0.4"
once_cell = "1"
parking_lot = "0.12"
reqwest = { version = "0.12", features = ["stream"] }
serde = { version = "1", features = ["derive"] }
serde_json = "1"
tokio = { version = "1", features = ["macros", "rt", "sync", "time"] }
uuid = { version = "1", features = ["v4"] }
whisper-rs = "0.15"
