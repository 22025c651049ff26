[package]
name = "gst_player_backend"
version = "0.1.0"
edition = "2021"
publish = false

[dependencies]
glib = "0.6"
gstreamer = "0.12"
gstreamer-app = "0.12"
gstreamer-player = "0.12"
gstreamer-video = "0.12"
ipc-channel = "0.11"
serde = { version = "1", features = ["derive"] }
