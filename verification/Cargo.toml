[package]
name = "rc"
version = "0.1.0"
edition = "2021"
publish = false

[dependencies]
ash = "0.37"
syn = { version = "1", features = ["full", "extra-traits"] }
quote = "1"
proc-macro2 = "1"
