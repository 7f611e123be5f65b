[package]
name = "capture"
version = "0.1.0"
edition = "2021"
publish = false

[dependencies]
ringbuffer = "0.15"
ringbuf = "0.4"
webrtc-vad = "0.4"
rubato = "0.16"
arboard = { version = "3", default-features = false }
dirs = "5"
crossbeam-channel = "0.5"
serde = { version = "1", features = ["derive"] }
serde_json = "1"
log = "0.4"
anyhow = "1"
