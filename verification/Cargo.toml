[package]
name = "tmux_project"
version = "0.1.0"
edition = "2021"
publish = false

[dependencies]
serde = { version = "1", features = ["derive"] }
shell-words = "1"
