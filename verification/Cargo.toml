[package]
name = "extension_host"
version = "0.1.0"
edition = "2021"
rust-version = "1.95"
publish = false

[dependencies]
wasmtime = { version = "=46.0.3", default-features = false, features = ["runtime", "cranelift", "wat", "coredump", "std"] }
eyre = "=0.6.14"
color-eyre = "=0.6.5"
