[package]
name = "plotcap"
version = "0.1.0"
edition = "2021"
publish = false

[dependencies]
anyhow = "1"
byte-unit = "4"
chrono = "0.4"
clap = { version = "3", features = ["derive"] }
humantime = "2"
