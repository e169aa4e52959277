[package]
name = "stereo_camera"
version = "0.1.0"
edition = "2021"
rust-version = "1.95"
publish = false

[dependencies]
axum = "=0.7.9"
clap = { version = "=4.6.7", features = ["derive"] }
color-eyre = "=0.6.5"
gst-plugin-webrtc-signalling = "0.12"
gstreamer = "0.22"
gstreamer-video = "0.22"
rand = "=0.8.8"
regex = "=1.13.1"
serde = { version = "=1.0.229", features = ["derive"] }
time = { version = "=0.3.55", features = ["formatting"] }
tokio = { version = "=1.54.1", features = ["full"] }
tokio-native-tls = "=0.3.1"
tower-http = { version = "=0.5.2", features = ["cors", "fs"] }
tracing = "=0.1.44"
tracing-subscriber = "=0.3.23"
