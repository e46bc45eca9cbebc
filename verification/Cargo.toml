[package]
name = "tracer"
version = "0.1.0"
edition = "2021"
publish = false

[dependencies]
visioncortex = "0.8"
serde = { version = "1", features = ["derive"] }
serde_json = "1"
wasm-bindgen = "0.2"
web-sys = { version = "0.3", features = ["ImageData"] }
console_error_panic_hook = "0.1"
