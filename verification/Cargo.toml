[package]
name = "scheme_runtime"
version = "0.1.0"
edition = "2021"

[dependencies]
anyhow = "1"
wasmtime = "13"
wasmtime-wasi = "13"
