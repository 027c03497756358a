[package]
name = "release"
version = "0.1.0"
edition = "2021"
publish = false

[dependencies]
anyhow = "1"
cargo-lock = "*"
cargo_toml = "*"
clap = "4"
duct = "*"
git2 = { version = "*", default-features = false }
tempfile = "3"
