[package]
name = "nixsa"
version = "0.1.0"
edition = "2021"
publish = false

[dependencies]
anyhow = "1"
camino = "1"
libc = "0.2"
shell-quote = "*"
tracing = "0.1"
tracing-subscriber = "0.3"
