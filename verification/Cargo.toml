[package]
name = "shortlink"
version = "0.1.0"
edition = "2021"
publish = false

[dependencies]
nanoid = "*"
axum = "*"
chrono = "*"
dotenvy = "*"
serde = { version = "*", features = ["derive"] }
sqlx = { version = "*", default-features = false, features = ["postgres", "runtime-tokio", "macros"] }
thiserror = "*"
tokio = { version = "*", features = ["rt-multi-thread", "macros", "net"] }
tower-http = { version = "*", features = ["cors"] }
tracing = "*"
tracing-subscriber = "*"
