[package]
name = "task_tracker"
version = "0.1.0"
edition = "2021"
publish = false

[dependencies]
anyhow = "=1.0.104"
async-trait = "=0.1.92"
chrono = { version = "=0.4.45", default-features = false, features = ["std"] }
dotenv = "=0.15.0"
rocket = { version = "=0.5.2", features = ["json"] }
rocket_cors = "=0.6.0"
rocket_ws = "=0.1.1"
sea-orm = { version = "=2.0.4", features = ["sqlx-sqlite", "runtime-tokio"] }
sea-orm-migration = { version = "=2.0.4", features = ["sqlx-sqlite", "runtime-tokio"] }
serde = { version = "=1.0.229", features = ["derive"] }
serde_json = "=1.0.154"
tokio = { version = "=1.54.1", default-features = false, features = ["sync"] }
uuid = { version = "=1.29.0", features = ["v4"] }
