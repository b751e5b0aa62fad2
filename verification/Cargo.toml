[package]
name = "ephemeral_dir"
version = "0.1.0"
edition = "2021"

[dependencies]
eyre = "*"
