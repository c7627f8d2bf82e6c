[package]
name = "tlock"
version = "0.1.0"
edition = "2021"
publish = false

[dependencies]
parse_duration = "*"
crossterm = "*"
clap = { version = "*", features = ["derive"] }
configparser = "*"
ini = "*"
dirs = "*"
chrono = "*"
