[package]
name = "trait_deref"
version = "0.1.0"
edition = "2021"

[dependencies]
convert_case = "*"
proc-macro2 = "1"
quote = "1"
syn = { version = "2", features = ["full"] }
