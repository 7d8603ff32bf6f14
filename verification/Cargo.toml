[package]
name = "rs_6502"
version = "0.1.0"
edition = "2021"
publish = false

[dependencies]
anyhow = "1"
indent = "*"
log = "0.4"
