[package]
name = "verbump"
version = "0.1.0"
edition = "2021"
publish = false

[dependencies]
anyhow = "1"
gumdrop = "0.8"
semver = "1"
