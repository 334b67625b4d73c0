[package]
name = "vm_bridge_mock"
version = "0.1.0"
edition = "2021"
publish = false

[dependencies]
sha3 = "*"
parity-scale-codec = "*"
wat = "*"
sp-crypto-hashing = "*"
