[package]
name = "writebench"
version = "0.1.0"
edition = "2021"
publish = false

[dependencies]
anyhow = "*"
humansize = "*"
io-uring = "*"
monoio = "*"
pico-args = "*"
