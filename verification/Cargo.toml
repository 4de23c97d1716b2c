[package]
name = "valid8"
version = "0.1.0"
edition = "2021"
publish = false

[dependencies]
regex = "1"
syn = "2"
proc-macro2 = "1"
