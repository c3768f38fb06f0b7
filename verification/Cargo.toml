[package]
name = "bun2nix"
version = "0.1.0"
edition = "2021"
publish = false

[dependencies]
askama = "*"
serde = { version = "1", features = ["derive"] }
serde_json = "1"
