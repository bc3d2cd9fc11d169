[package]
name = "chip8_base"
version = "0.1.0"
edition = "2021"
publish = false

[dependencies]
nanorand = "*"
yacurses = "*"
wasm-bindgen = "0.2"
wasm-bindgen-futures = "0.4"
wasm-streams = "*"
js-sys = "0.3"
web-sys = { version = "0.3", features = ["console", "Headers", "ReadableStream", "Request", "RequestInit", "RequestMode", "Response", "Window"] }
futures = "0.3"
console_error_panic_hook = "0.1"
