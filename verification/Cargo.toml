[package]
name = "diary"
version = "0.1.0"
edition = "2021"
publish = false

[dependencies]
ansi_term = "0.12"
chrono = { version = "0.4", features = ["serde"] }
clap = "2"
failure = "0.1"
regex = "1"
serde = { version = "1", features = ["derive"] }
serde_derive = "1"
toml = "0.4"
