[package]
name = "pixboard"
version = "0.1.0"
edition = "2021"

[dependencies]
svg = "*"
