[package]
name = "matcraft"
version = "0.9.1"
edition = "2021"
publish = false

[dependencies]
rand = "0.9"
clap = { version = "4", features = ["derive"] }
