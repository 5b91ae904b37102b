[package]
name = "mold_sim"
version = "0.1.0"
edition = "2021"
publish = false

[dependencies]
async-executor = "1.4"
bytemuck = "1.5"
cgmath = "0.18"
console_error_panic_hook = "0.1"
console_log = "0.2"
env_logger = "0.8"
imgui = "0.7"
imgui-wgpu = "0.14"
imgui-winit-support = "0.7"
log = "0.4"
pollster = "0.2"
rand = "0.8"
serde = { version = "1", features = ["derive"] }
serde_json = "1"
wasm-bindgen-futures = "0.4"
web-sys = "0.3"
wgpu = "0.7"
winit = "0.24"
