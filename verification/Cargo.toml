[package]
name = "notion_server"
version = "0.1.0"
edition = "2021"
publish = false

[dependencies]
tokio = { version = "1", features = ["sync", "rt-multi-thread", "macros", "time"] }
rocket = { version = "0.5", features = ["json"] }
serde = { version = "1", features = ["derive"] }
