[package]
name = "da2013"
version = "0.1.0"
edition = "2021"
publish = false

[dependencies]
getopts = "*"
libudev = "*"
nix = { version = "*", features = ["fs", "ioctl"] }
