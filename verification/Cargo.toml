[package]
name = "signal_pingpong"
version = "0.1.0"
edition = "2021"
publish = false

[dependencies]
clap = { version = "4", features = ["derive"] }
compio = { version = "*", features = ["signal", "runtime"] }
nix = { version = "*", features = ["signal"] }
libc = "0.2"
