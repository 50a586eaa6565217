[package]
name = "canvas_backend"
version = "0.1.0"
edition = "2021"
publish = false

[dependencies]
plotters-backend = "*"
wasm-bindgen = "*"
js-sys = "*"
web-sys = { version = "*", features = ["OffscreenCanvas", "OffscreenCanvasRenderingContext2d"] }
