[package]
name = "command_dispatch"
version = "0.1.0"
edition = "2021"
publish = false

[dependencies]
anyhow = "=1.0.104"
rustyline = "=14.0.0"
wasi-common = "19"
wasmtime = "19"
wasmtime-wasi = "19"

[dev-dependencies]
wat = "=1.262.0"
