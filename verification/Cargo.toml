[package]
name = "kiosk_core"
version = "0.1.0"
edition = "2021"
publish = false

[dependencies]
async-trait = "0.1"
tokio = { version = "1", features = ["rt", "fs"] }
serde = { version = "1", features = ["derive"] }
serde_json = "1"
log = "0.4"
jni = "0.21"
android_logger = "0.13"
