[package]
name = "arda_live_media_server"
version = "0.1.0"
edition = "2021"
publish = false

[dependencies]
webrtc = "0.6"
serde_json = "1"
tokio = { version = "1", features = ["full"] }
actix-web = "4"
tracing = "0.1"
tracing-actix-web = "0.7"
async-trait = "0.1"
