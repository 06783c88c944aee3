[package]
name = "posture_core"
version = "0.1.0"
edition = "2021"
publish = false

[dependencies]
rusqlite = { version = "*", features = ["bundled"] }
dirs = "*"
tokio = { version = "*", features = ["full"] }
