[package]
name = "todo_service"
version = "0.1.0"
edition = "2021"
publish = false

[dependencies]
rusqlite = "0.29"
axum = "0.5"
serde = { version = "1", features = ["derive"] }
tokio = { version = "1", features = ["macros", "rt-multi-thread"] }
