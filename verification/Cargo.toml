[package]
name = "assay"
version = "0.1.0"
edition = "2021"
publish = false

[dependencies]
tempfile = "*"
fs-err = "*"
fs_extra = "*"
tokio = { version = "*", features = ["rt"], default-features = false }
