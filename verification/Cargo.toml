[package]
name = "track_attr"
version = "0.1.0"
edition = "2021"
publish = false

[dependencies]
darling = "0.20"
syn = "2"
proc-macro2 = "1"
quote = "1"
