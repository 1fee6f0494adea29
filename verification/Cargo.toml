[package]
name = "wasm_bridge"
version = "0.1.0"
edition = "2021"
rust-version = "1.95"
publish = false

[dependencies]
wasmtime = "=47.0.4"
napi = "=2.16.17"
napi-derive = "=2.16.13"
