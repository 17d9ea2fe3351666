[package]
name = "libfip"
version = "0.1.0"
edition = "2021"
publish = false

[dependencies]
rusb = { version = "*", features = ["vendored"] }
libc = "*"
widestring = "*"
log = "*"
pretty_env_logger = "*"
