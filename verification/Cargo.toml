[package]
name = "validation"
version = "0.1.0"
edition = "2021"
publish = false

[dependencies]
regex = "=1.13.1"
syn = { version = "=1.0.109", features = ["full", "extra-traits"] }
quote = "=1.0.47"
proc-macro2 = "=1.0.107"
serde = { version = "=1.0.229", features = ["derive"] }
