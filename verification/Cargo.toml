[package]
name = "hook"
version = "0.1.0"
edition = "2021"
publish = false

[dependencies]
clap = { version = "4", features = ["derive"] }
pathdiff = "0.2"
symlink = "0.1"
