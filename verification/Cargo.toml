[package]
name = "tinvoke_types"
version = "0.1.0"
edition = "2021"
publish = false

[dependencies]
ts-rs = "=11.1.0"
