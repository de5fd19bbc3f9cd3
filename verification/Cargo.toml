[package]
name = "tsukimi"
version = "0.1.0"
edition = "2021"
publish = false

[dependencies]
dirs = "5"
reqwest = { version = "0.12", default-features = false, features = ["json"] }
serde = { version = "1", features = ["derive"] }
serde_json = "1"
tokio = { version = "1", features = ["rt-multi-thread", "sync", "time", "net"] }
