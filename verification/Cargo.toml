[package]
name = "nlhgui"
version = "0.1.0"
edition = "2021"
publish = false

[dependencies]
colog = "1"
gl = "0.14"
glutin = "0.32"
glutin-winit = "0.5"
log = "0.4"
raw-window-handle = "0.6"
skia-safe = { version = "*", features = ["gl", "textlayout"] }
tokio = { version = "1", features = ["rt-multi-thread"] }
winit = "0.30"
