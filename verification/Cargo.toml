[package]
name = "gst-mxl-rs"
version = "0.1.0"
edition = "2021"
publish = false

[dependencies]
serde = { version = "=1.0.229", features = ["derive"] }
serde_json = "=1.0.154"
glib = "=0.21.5"
gstreamer = "=0.24.5"
gstreamer-base = "=0.24.5"
gstreamer-audio = "=0.24.5"
# Held below the release that needs a newer compiler; gstreamer pulls it in.
kstring = "=2.0.2"
tracing = "=0.1.44"
tracing-subscriber = "=0.3.23"
