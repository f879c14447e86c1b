[package]
name = "hermit-sys"
version = "0.1.0"
edition = "2021"
publish = false

[dependencies]
smoltcp = "=0.7.5"
futures-lite = "=1.13.0"
lazy_static = "=1.5.1"
aarch64 = "=0.0.14"
tock-registers = "=0.9.0"
