[package]
name = "cce_fx"
version = "0.1.0"
edition = "2021"
publish = false

[dependencies]
xkbcommon = { version = "=0.9.0", default-features = false }
libc = "=0.2.191"
nix = { version = "=0.31.3", features = ["process"] }
kdl = "=4.7.1"
serde = { version = "=1.0.229", features = ["derive"] }
