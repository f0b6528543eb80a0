[package]
name = "exam_session"
version = "0.1.0"
edition = "2021"
publish = false

[dependencies]
uuid = "=1.27.0"
chrono = "=0.4.45"
serde = { version = "=1.0.229", features = ["derive"] }
serde_json = "=1.0.151"
sqlx = { version = "=0.9.0", default-features = false, features = ["runtime-tokio", "postgres", "chrono", "uuid", "json"] }
tokio = { version = "=1.53.2", features = ["macros", "rt-multi-thread"] }
vercel_runtime = "=1.1.6"
