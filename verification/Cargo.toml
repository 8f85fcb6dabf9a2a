[package]
name = "to_do_cli"
version = "0.1.0"
edition = "2021"
publish = false

[dependencies]
chrono = "0.4"
clap = { version = "4.5", features = ["derive"] }
rusqlite = { version = "*", features = ["bundled"] }
