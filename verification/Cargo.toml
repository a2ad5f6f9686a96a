[package]
name = "subprocess"
version = "0.1.0"
edition = "2021"
publish = false

[dependencies]
nix = "0.26"
fork = "*"
crossbeam = "0.8"

[dev-dependencies]
libc = "0.2"
