[package]
name = "hookfs"
version = "0.1.0"
edition = "2021"
publish = false

[dependencies]
anyhow = "1"
fuse = "0.3"
libc = "0.2"
nix = "0.17"
time = "0.1"
tracing = "0.1"
