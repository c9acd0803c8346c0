[package]
name = "pal_vm"
version = "0.1.0"
edition = "2021"
publish = false

[dependencies]
encoding_rs = "0.8.44"
kira = { version = "0.10.8", default-features = false }
ab_glyph = "0.2.32"
anyhow = "1.0.104"
log = "0.4.35"
