[package]
name = "mrs_matrix"
version = "0.1.0"
edition = "2021"
publish = false

[dependencies]
rand = "0.8"
crossterm = "0.28"
coolor = "1"
clap = { version = "4", features = ["derive"] }
