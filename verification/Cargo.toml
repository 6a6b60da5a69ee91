[package]
name = "rari_tty"
version = "0.1.0"
edition = "2021"
publish = false

[dependencies]
libc = "0.2"
nix = { version = "*", features = ["term", "signal"] }
rustc-hash = "2"
rustyline = "*"
