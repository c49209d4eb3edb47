[package]
name = "wasm_linker"
version = "0.1.0"
edition = "2021"
publish = false

[dependencies]
cranelift-codegen = "=0.127.4"
region = "*"
rayon = "*"
indicatif = "*"
console = "*"
