[package]
name = "ccb"
version = "0.1.0"
edition = "2021"

[dependencies]
atty = "0.2"
chrono = { version = "0.4", default-features = false, features = ["clock"] }
once_cell = "1"
termcolor = "1"
