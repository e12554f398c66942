[package]
name = "walker_heightmap"
version = "0.1.0"
edition = "2021"
publish = false

[dependencies]
angled-random-walker = "*"
stackblur-iter = "*"
wasm-bindgen = "*"
