[package]
name = "nrt"
version = "0.1.0"
edition = "2021"
publish = false

[dependencies]
parity-wasm = "*"
clap = "2"
libc = "0.2"
llvm-sys = "*"
