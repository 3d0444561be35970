[package]
name = "brew_last_updated"
version = "0.1.0"
edition = "2021"
publish = false

[dependencies]
regex = "1"
anyhow = "1"
thiserror = "1"
