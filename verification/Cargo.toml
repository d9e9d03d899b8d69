[package]
name = "matmul_flat"
version = "0.1.0"
edition = "2021"
publish = false

[dependencies]
rayon = "1"
rand = "0.8"
mimalloc = "0.1"
