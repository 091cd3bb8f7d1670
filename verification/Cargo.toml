[package]
name = "emit_rand"
version = "0.9.0"
edition = "2021"
publish = false

[dependencies]
emit_core = { version = "1", default-features = false }
rand = { version = "0.9" }
