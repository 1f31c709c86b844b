[package]
name = "webrtc_proxy"
version = "0.1.0"
edition = "2021"
publish = false

[dependencies]
anyhow = "=1.0.104"
naia-client-socket = "0.22"
naia-server-socket = "0.22"
naia-socket-shared = "0.22"
rusty_enet = "=0.1.0"
serde = { version = "=1.0.229", features = ["derive"] }
serde_json = "=1.0.154"
web-time = "=1.1.0"
