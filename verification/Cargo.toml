[package]
name = "tasks_harness"
version = "0.1.0"
edition = "2021"
publish = false

[dependencies]
serde_json = "1"
serde = { version = "1", features = ["derive"] }
tokio = { version = "1", features = ["macros", "rt-multi-thread"] }
isahc = { version = "1", features = ["json"] }
goose = "0.15"
