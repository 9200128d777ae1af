[package]
name = "auth"
version = "0.1.0"
edition = "2021"
publish = false

[dependencies]
jsonwebtoken = { version = "=9.3.1", default-features = false }
serde = { version = "=1.0.229", features = ["derive"] }
serde_json = { version = "=1.0.154", features = ["raw_value"] }
axum = "=0.6.20"
tokio = { version = "=1.54.1", features = ["macros", "rt-multi-thread"] }
sqlx = { version = "=0.7.4", default-features = false, features = ["postgres", "runtime-tokio"] }
config = "=0.13.4"
