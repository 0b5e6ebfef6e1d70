[package]
name = "shaderx_wgpu"
version = "0.1.0"
edition = "2021"
publish = false

[dependencies]
bytemuck = { version = "1", features = ["derive"] }
cfg-if = "1"
console_error_panic_hook = "0.1"
console_log = "1"
env_logger = "0.11"
js-sys = "0.3"
log = "0.4"
pollster = "0.3"
wasm-bindgen = "0.2"
wasm-bindgen-futures = "0.4"
web-sys = { version = "0.3", features = ["Document", "Element", "Window"] }
web-time = "1"
wgpu = "22"
winit = "0.30"
