[package]
name = "priest"
version = "0.1.0"
edition = "2021"
publish = false

[dependencies]
anyhow = "*"
clap = { version = "*", features = ["derive"] }
goblin = "*"
tracing = "*"
tracing-subscriber = { version = "*", features = ["env-filter"] }
