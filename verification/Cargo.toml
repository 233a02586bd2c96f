[package]
name = "splat"
version = "0.1.0"
edition = "2021"
publish = false

[dependencies]
clap = "*"
serde = { version = "*", features = ["derive"] }
thiserror = "*"
toml = "*"
tracing = "*"
tracing-subscriber = "*"
