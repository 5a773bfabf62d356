[package]
name = "cargo-hoist"
version = "0.1.0"
edition = "2021"
publish = false

[dependencies]
anyhow = "1"
clap = { version = "4", features = ["derive"] }
inquire = "0.6"
is-terminal = "0.4"
serde = { version = "1", features = ["derive"] }
termcolor = "1"
toml = "0.8"
tracing = "0.1"
tracing-subscriber = "0.3"
