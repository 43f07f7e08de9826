[package]
name = "libpd-rs"
version = "0.1.0"
edition = "2021"
publish = false

[dependencies]
libpd-sys = "*"
libffi = "3"
thiserror = "1"
