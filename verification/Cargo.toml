[package]
name = "iconify_core"
version = "0.1.0"
edition = "2021"
publish = false

[dependencies]
blake3 = "*"
hex = "*"
url = "*"
directories = "*"
ureq = "*"
syn = { version = "*", features = ["full"] }
quote = "*"
proc-macro2 = "*"
