[package]
name = "mun_hir"
version = "0.1.0"
edition = "2021"
publish = false

[dependencies]
mun_syntax = "*"
rustc-hash = "1.1"
