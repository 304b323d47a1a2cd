[package]
name = "fuser"
version = "0.1.0"
edition = "2021"
publish = false

[dependencies]
page_size = "*"
libc = "*"
crossbeam-channel = "*"
zerocopy = { version = "0.8", features = ["derive"] }
bytes = "*"
nix = { version = "*", features = ["user"] }
log = "*"
serde = { version = "1", features = ["derive"] }
