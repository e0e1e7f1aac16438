[package]
name = "raw_input"
version = "0.1.0"
edition = "2021"
publish = false

[dependencies]
wayland-client = "*"
wayland-protocols = { version = "*", features = ["client"] }
memmap2 = "*"
tempfile = "*"
wasm-bindgen = "*"
web-sys = { version = "*", features = ["Window", "Document", "EventTarget", "KeyboardEvent", "MouseEvent", "WheelEvent"] }
