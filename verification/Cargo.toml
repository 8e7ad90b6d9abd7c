[package]
name = "orbit_engine"
version = "0.1.0"
edition = "2021"
publish = false

[dependencies]
sgp4 = { version = "=2.4.0", default-features = false, features = ["alloc", "libm"] }
lazy_static = "=1.5.1"
wasm-bindgen = "=0.2.129"
web-sys = { version = "=0.3.106", features = ["console"] }
