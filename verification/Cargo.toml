[package]
name = "tt_migrate"
version = "0.1.0"
edition = "2021"
publish = false

[dependencies]
rusqlite = { version = "*", features = ["bundled"] }
directories = "*"

[dev-dependencies]
chrono = "*"
