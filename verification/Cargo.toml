[package]
name = "worker_queue"
version = "0.1.0"
edition = "2021"
publish = false

[dependencies]
js-sys = "=0.3.106"
serde = "=1.0.229"
serde-wasm-bindgen = "=0.6.5"
wasm-bindgen = "=0.2.129"
wasm-bindgen-futures = "=0.4.79"
worker-sys = { version = "=0.8.7", features = ["queue"] }
