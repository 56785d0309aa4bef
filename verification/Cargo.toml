[package]
name = "efinmet"
version = "0.1.0"
edition = "2021"
publish = false

[dependencies]
serde_json = "1"
serde = { version = "1", features = ["derive"] }
reqwest = "*"
tokio = { version = "1", features = ["rt-multi-thread", "macros", "time"] }
