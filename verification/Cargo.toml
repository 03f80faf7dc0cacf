[package]
name = "hy_rs"
version = "0.1.0"
edition = "2021"
publish = false

[dependencies]
mmap-rs = "*"
rangemap = "*"
kvm-bindings = "*"
kvm-ioctls = "*"
