[package]
name = "game_store"
version = "0.1.0"
edition = "2021"
publish = false

[dependencies]
rusqlite = { version = "*", features = ["bundled"] }
bcrypt = "*"
rand = "*"
