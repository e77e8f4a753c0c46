[package]
name = "bitcoinkernel"
version = "0.1.0"
edition = "2021"
publish = false

[dependencies]
libbitcoinkernel-sys = "=0.4.1"
