[package]
name = "sync_server"
version = "0.1.0"
edition = "2021"
publish = false

[dependencies]
sha2 = "=0.10.9"
argon2 = { version = "=0.5.3", features = ["std"] }
serde = { version = "=1.0.229", features = ["derive"] }
serde_json = "=1.0.154"
chrono = { version = "=0.4.45", features = ["serde"] }
uuid = { version = "=1.29.1", features = ["v4", "serde"] }
anyhow = "=1.0.104"
tracing = "=0.1.44"
tracing-subscriber = { version = "=0.3.23", features = ["env-filter"] }
axum = "=0.8.9"
axum-extra = "=0.10.3"
http = "=1.5.0"
tokio = { version = "=1.54.1", features = ["macros", "rt-multi-thread", "net", "fs"] }
tower-http = { version = "=0.6.11", features = ["trace"] }
dotenvy = "=0.15.7"
async-trait = "=0.1.92"
sea-orm = { version = "=1.1.20", default-features = false, features = ["macros", "with-chrono", "with-uuid", "with-json", "sqlx-postgres", "runtime-tokio-rustls"] }
sea-orm-migration = { version = "1.1", default-features = false, features = ["sqlx-postgres", "runtime-tokio-rustls"] }
