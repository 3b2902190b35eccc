[package]
name = "redleaf"
version = "0.1.0"
edition = "2021"
publish = false

[dependencies]
anyhow = "1"
argon2 = "=0.5.3"
axum = "*"
chrono = { version = "=0.4.45", features = ["serde"] }
dotenvy = "0.15"
password-hash = { version = "=0.5.0", features = ["getrandom"] }
pulldown-cmark = "=0.13.4"
serde = { version = "1", features = ["derive"] }
sqlx = { version = "0.8", features = ["runtime-tokio", "sqlite", "chrono"] }
tokio = { version = "1", features = ["macros", "rt-multi-thread", "net"] }
tower-http = { version = "*", features = ["fs", "trace"] }
tracing = "0.1"
tracing-subscriber = { version = "0.3", features = ["env-filter"] }
