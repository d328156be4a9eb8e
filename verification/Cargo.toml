[package]
name = "scalix"
version = "0.1.0"
edition = "2021"
publish = false

[dependencies]
ash = "0.38"
crossbeam-channel = "0.5"
libc = "0.2"
log = "0.4"
thiserror = "2"
