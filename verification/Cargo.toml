[package]
name = "zip_blitz"
version = "0.1.0"
edition = "2021"

[dependencies]
clap = { version = "3", features = ["derive"] }
zip = { version = "2", default-features = false, features = ["deflate"] }
