[package]
name = "typstfmt"
version = "0.1.0"
edition = "2021"
publish = false

[dependencies]
typst-syntax = "*"
anyhow = "*"
clap = { version = "*", features = ["derive"] }
globmatch = "*"
serde = { version = "*", features = ["derive"] }
similar = "*"
thiserror = "*"
toml = "*"
