[package]
name = "devhub"
version = "0.1.0"
edition = "2021"
publish = false

[dependencies]
chrono = { version = "0.4", features = ["serde"] }
clap = { version = "4", features = ["derive"] }
dirs = "6"
eyre = "0.6"
libc = "0.2"
serde = { version = "1", features = ["derive"] }
serde_json = "1"
