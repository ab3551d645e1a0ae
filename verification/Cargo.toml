[package]
name = "webrtc_receiver"
version = "0.1.0"
edition = "2021"
publish = false

[dependencies]
anyhow = "1"
eframe = { version = "0.31", default-features = false, features = ["default_fonts", "glow", "x11"] }
gstreamer = "0.23"
gstreamer-app = "0.23"
gstreamer-video = "0.23"
objc = "0.2"
