[package]
name = "maestro"
version = "0.1.0"
edition = "2021"
publish = false

[dependencies]
clap = { version = "*", features = ["cargo"] }
crossbeam-channel = "*"
libc = "*"
nix = { version = "*", features = ["signal", "process"] }
signal-hook = "*"
