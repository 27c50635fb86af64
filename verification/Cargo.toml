[package]
name = "wasm_coremark"
version = "0.1.0"
edition = "2021"
publish = false

[dependencies]
anyhow = "1"
wasmi = "2.0.0"
makepad-stitch = "0.1.0"
tinywasm = "0.9.1"
wasmtime = { version = "46.0.3", default-features = false, features = ["std", "runtime", "cranelift", "winch", "pulley"] }
wasm3 = "0.3.1"
wamr-sys = "0.1.1"
wasmedge-sdk = "0.14.0"
spacewasm = "0.7.1"
