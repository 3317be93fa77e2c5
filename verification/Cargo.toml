[package]
name = "flare"
version = "0.1.0"
edition = "2021"
publish = false

[dependencies]
png = "*"
jpeg-encoder = "*"
libwebp-sys = "*"
clap = "4"
memmap = "*"
nix = { version = "*", features = ["ioctl"] }

[dev-dependencies]
jpeg-decoder = "*"
