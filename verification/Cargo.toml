[package]
name = "local_whisper"
version = "0.1.0"
edition = "2021"
publish = false

[dependencies]
serde = { version = "=1.0.229", features = ["derive"] }
serde_json = "=1.0.151"
log = "=0.4.34"
thiserror = "=1.0.69"
sysinfo = "*"
