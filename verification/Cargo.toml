[package]
name = "ringloop"
version = "0.1.0"
edition = "2021"
publish = false

[dependencies]
futures = "0.3"
iou = "0.3"
libc = "0.2"
nix = "0.18"
uring-sys = "0.7"
