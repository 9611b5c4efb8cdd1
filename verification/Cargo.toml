[package]
name = "too_many_timestamps"
version = "0.1.0"
edition = "2021"
publish = false

[dependencies]
chrono = "0.4"
clap = { version = "4", features = ["cargo"] }
crossterm = "0.27"
