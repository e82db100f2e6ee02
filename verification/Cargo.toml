[package]
name = "roc_parse"
version = "0.1.0"
edition = "2021"
publish = false

[dependencies]
bumpalo = "=3.20.3"
