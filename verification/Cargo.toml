[package]
name = "frame_cycle"
version = "0.1.0"
edition = "2021"
publish = false

[dependencies]
cgmath = "*"
console_error_panic_hook = "*"
console_log = "*"
fnv = "*"
log = "*"
wasm-bindgen = "*"
wasm-bindgen-futures = "*"
web-sys = { version = "*", features = ["Window"] }
