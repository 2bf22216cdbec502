[package]
name = "enum_update"
version = "0.1.0"
edition = "2021"
publish = false

[dependencies]
convert_case = "*"
syn = { version = "*", features = ["full"] }
quote = "*"
proc-macro2 = "*"
