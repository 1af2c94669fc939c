[package]
name = "wasm_share_memory"
version = "0.1.0"
edition = "2021"
publish = false

[dependencies]
walrus = "*"
wasm-bindgen = "*"
