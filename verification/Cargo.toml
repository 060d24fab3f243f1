[package]
name = "snake_moves"
version = "0.1.0"
edition = "2021"
publish = false

[dependencies]
axum = "0.2"
rand = "0.8"
serde = { version = "1", features = ["derive"] }
serde_json = "1"
slog = "2"
slog-json = "2"
tokio = { version = "1", features = ["full"] }
