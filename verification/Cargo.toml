[package]
name = "pnut"
version = "0.1.0"
edition = "2021"
publish = false

[dependencies]
bumpalo = "3"
caps = "0.5"
kafel = "*"
landlock = "0.4"
libc = "0.2"
nix = { version = "0.30", features = ["fs", "poll", "process", "signal"] }
