[package]
name = "fs_materialize"
version = "0.1.0"
edition = "2021"
publish = false

[dependencies]
shaman = "0.1"
regex = "1"
libc = "0.2"
nix = { version = "*", features = ["fs", "mount"] }
unshare = "*"
