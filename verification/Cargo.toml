[package]
name = "brainfk_rs"
version = "0.1.0"
edition = "2021"
publish = false

[dependencies]
wasmparser = "=0.261.0"
wasmer = { version = "=2.3.0", features = ["singlepass"] }
wasmer-wasi = "=2.3.0"
uuid = { version = "=1.27.0", features = ["v4"] }
clap = { version = "=4.6.7", features = ["derive"] }

[dev-dependencies]
wasm-encoder = "=0.261.0"
wasmi = "*"
