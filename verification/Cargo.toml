[package]
name = "cargo_attach"
version = "0.1.0"
edition = "2021"
publish = false

[dependencies]
argh = "*"
cargo_metadata = "*"
cargo-platform = "*"
shlex = "*"
toml = "*"
walkdir = "*"
