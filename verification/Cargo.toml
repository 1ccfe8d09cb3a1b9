[package]
name = "labrain"
version = "0.1.0"
edition = "2021"
publish = false

[dependencies]
rusqlite = { version = "*", features = ["bundled"] }
directories = "*"
clap = { version = "*", features = ["derive"] }
