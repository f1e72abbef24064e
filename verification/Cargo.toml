[package]
name = "wasmjit-environ"
version = "0.1.0"
edition = "2021"
publish = false

[dependencies]
cranelift-codegen = "=0.52.0"
cranelift-entity = "=0.52.0"
cranelift-wasm = "=0.52.0"
env_logger = "=0.7.1"
