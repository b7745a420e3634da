[package]
name = "xattr_nif"
version = "0.1.0"
edition = "2021"
publish = false

[dependencies]
xattr = "=1.6.1"
rustler = "=0.38.0"

[dev-dependencies]
tempfile = "*"
