[package]
name = "event_sourcing"
version = "0.1.0"
edition = "2021"
publish = false

[dependencies]
anyhow = "=1.0.104"
chrono = "=0.4.45"
crossbeam-channel = "=0.5.17"
ulid = "=3.0.0"
serde = { version = "=1.0.229", features = ["derive"] }
serde_json = "=1.0.151"
axum = "=0.8.9"
sqlx = { version = "=0.9.0", default-features = false, features = ["runtime-tokio", "sqlite", "json", "chrono", "derive"] }
tokio = { version = "=1.53.2", features = ["rt-multi-thread", "macros", "signal", "time", "net"] }
once_cell = "=1.21.4"
