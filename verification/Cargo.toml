[package]
name = "atlas_bridge"
version = "0.1.0"
edition = "2021"
publish = false

[dependencies]
atlas_77 = "=0.5.2"
bumpalo = "=3.20.3"
miette = "=7.6.0"
console_error_panic_hook = "=0.1.7"
wasm-bindgen = "=0.2.129"
