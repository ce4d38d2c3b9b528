[package]
name = "hades"
version = "0.1.0"
edition = "2021"
publish = false

[dependencies]
colored = "2"
glow = "0.13"
glutin = "0.31"
glutin-winit = "0.4"
imgui = "0.12"
imgui-glow-renderer = "0.12"
imgui-winit-support = "0.12"
log = "0.4"
raw-window-handle = "0.5"
time = { version = "0.3", features = ["formatting", "macros"] }
winit = { version = "0.29", features = ["rwh_05"] }
