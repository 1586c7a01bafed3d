[package]
name = "image_borders"
version = "0.1.0"
edition = "2021"
publish = false

[dependencies]
image = { version = "0.24", default-features = false, features = ["png", "jpeg"] }
chrono = "0.4"
wasm-bindgen = "0.2"
