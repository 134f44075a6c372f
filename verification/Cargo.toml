[package]
name = "clayout"
version = "0.1.0"
edition = "2021"
publish = false

[dependencies]
indexmap = "=2.14.2"
clang = { version = "=2.1.0", features = ["runtime", "clang_10_0"] }
