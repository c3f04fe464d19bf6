[package]
name = "voice_segmenter"
version = "0.1.0"
edition = "2021"
publish = false

[dependencies]
webrtc-vad = "*"
rtrb = "*"
cpal = "*"
tokio = { version = "*", features = ["rt-multi-thread", "macros", "time", "sync"] }
