[package]
name = "fsrx_lib"
version = "0.1.0"
edition = "2021"
publish = false

[dependencies]
ansi_term = "*"
unicode-segmentation = "*"
atty = "*"
clap = { version = "*", features = ["derive"] }
