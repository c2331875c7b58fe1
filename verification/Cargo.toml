[package]
name = "library_api"
version = "0.1.0"
edition = "2021"
publish = false

[dependencies]
argon2 = { version = "0.5", features = ["std"] }
axum = "0.8"
axum-extra = { version = "0.10", features = ["typed-header"] }
chrono = { version = "0.4", features = ["serde"] }
jsonwebtoken = { version = "10", default-features = false, features = ["rust_crypto"] }
listenfd = "1"
mime_guess = "2"
sea-query = { version = "0.32", features = ["with-chrono"] }
sea-query-binder = { version = "0.7", features = ["sqlx-sqlite", "with-chrono"] }
serde = { version = "1", features = ["derive"] }
serde_json = "1"
sqlx = { version = "0.8", default-features = false, features = ["sqlite", "runtime-tokio", "chrono", "derive", "migrate"] }
thiserror = "2"
tokio = { version = "1", features = ["macros", "rt-multi-thread", "net", "signal"] }
tower-cookies = "0.11"
tracing = "0.1"
tracing-subscriber = "0.3"
