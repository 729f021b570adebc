[package]
name = "rgbar"
version = "0.1.0"
edition = "2021"
publish = false

[dependencies]
async-channel = "*"
nix = "0.26"
