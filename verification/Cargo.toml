[package]
name = "wasm_reader"
version = "0.1.0"
edition = "2021"
publish = false

[dependencies]
byteorder = "1"
leb128 = "0.2"
