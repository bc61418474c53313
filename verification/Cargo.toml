[package]
name = "strand_specifier_lib"
version = "0.1.0"
edition = "2021"
publish = false

[dependencies]
clap = { version = "*", features = ["derive"] }
rust-htslib = { version = "*", default-features = false }
