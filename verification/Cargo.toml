[package]
name = "nm"
version = "0.1.0"
edition = "2021"
publish = false

[dependencies]
tokio = { version = "1", features = ["sync"] }
libc = "0.2"
nix = "0.29"
ctrlc = "3"
