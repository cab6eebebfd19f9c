[package]
name = "witx_test"
version = "0.1.0"
edition = "2021"
publish = false

[dependencies]
proptest = "1"
rand = "0.8"
witx = "*"
tempfile = "3"
wasi-headers = "*"
