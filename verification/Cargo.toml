[package]
name = "discord_timestamp"
version = "0.1.0"
edition = "2021"
publish = false

[dependencies]
chrono = "0.4"
clap = { version = "4", features = ["derive", "env"] }
cli-clipboard = "0.4"
prettytable-rs = "0.10"
