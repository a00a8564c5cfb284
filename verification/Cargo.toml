[package]
name = "llvm_cov_cli"
version = "0.1.0"
edition = "2021"
publish = false

[dependencies]
anyhow = "1"
camino = "1"
lexopt = "0.2"
