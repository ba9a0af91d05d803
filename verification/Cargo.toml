[package]
name = "gs_slam_core"
version = "0.1.0"
edition = "2021"
publish = false

[dependencies]
bytemuck = { version = "1", features = ["derive"] }
console_error_panic_hook = "0.1"
console_log = "1"
futures-intrusive = "0.5"
log = "0.4"
memmap2 = "0.9"
nalgebra = "0.33"
pollster = "0.3"
pyo3 = "0.22"
wasm-bindgen = "0.2"
web-sys = { version = "0.3", features = ["Document", "Element", "HtmlCanvasElement", "MouseEvent", "WheelEvent", "Window"] }
wgpu = "23"
