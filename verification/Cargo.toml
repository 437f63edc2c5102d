[package]
name = "crossbus"
version = "0.1.0"
edition = "2021"
publish = false

[dependencies]
futures-core = "0.3"
pin-project-lite = "0.2"
tokio = { version = "1", features = ["rt"] }
async-std = { version = "1", features = ["unstable"] }
wasm-bindgen = "0.2"
wasm-bindgen-futures = "0.4"
js-sys = "0.3"
