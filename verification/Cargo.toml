[package]
name = "imag_hooks"
version = "0.1.0"
edition = "2021"
publish = false

[dependencies]
toml = { version = "0.2", default-features = false }
uuid = { version = "*", features = ["v4"] }
git2 = { version = "*", default-features = false }
clap = "2"
log = "*"
