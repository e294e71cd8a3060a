[package]
name = "rust_interface"
version = "0.1.0"
edition = "2021"
publish = false

[dependencies]
exonum = "=0.13.0-rc.2"
exonum-merkledb = "=0.13.0-rc.2"
exonum-supervisor = "=0.13.0-rc.2"
futures = "0.1"
lazy_static = "1"
log = "0.4"
