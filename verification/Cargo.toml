[package]
name = "memo_clip"
version = "0.1.0"
edition = "2021"
publish = false

[dependencies]
chrono = "*"
rand = "*"
rusqlite = { version = "*", features = ["bundled"] }
