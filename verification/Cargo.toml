[package]
name = "menu_items"
version = "0.1.0"
edition = "2021"
publish = false

[dependencies]
uuid = { version = "=1.27.0", features = ["serde", "v4", "v7"] }
chrono = { version = "=0.4.45", features = ["serde"] }
rand = "=0.8.8"
serde = { version = "1", features = ["derive"] }
sqlx = { version = "=0.8.6", default-features = false, features = ["runtime-tokio", "postgres", "uuid", "chrono"] }
axum = "=0.7.9"
axum-extra = "=0.9.6"
tokio = { version = "1", features = ["full"] }
tower = "=0.4.13"
tower-http = { version = "=0.5.2", features = ["request-id", "trace"] }
tracing = "0.1"
tracing-subscriber = { version = "0.3", features = ["env-filter"] }
