[package]
name = "clara"
version = "0.1.0"
edition = "2021"
publish = false

[dependencies]
chrono = "0.4"
clap = { version = "4", features = ["derive"] }
directories = "*"
rusqlite = { version = "*", features = ["bundled"] }
rustyline = "*"
serde = { version = "1", features = ["derive"] }
serde_json = "1"
shell-words = "1"
tempfile = "3"
toml = "*"
