[package]
name = "chat_guard"
version = "0.1.0"
edition = "2021"
publish = false

[dependencies]
regex = "1"
rand = "0.9"
uuid = { version = "1", features = ["v4"] }
chrono = "0.4"
chrono-tz = "0.10"
tokio = { version = "1", features = ["full"] }
telers = "=1.0.0-beta.10"
sea-orm = { version = "1", default-features = false, features = ["sqlx-postgres", "runtime-tokio-rustls", "macros", "with-chrono"] }
moka = { version = "0.12", features = ["future"] }
reqwest = { version = "0.12", default-features = false, features = ["json", "rustls-tls"] }
serde = { version = "1", features = ["derive"] }
serde_json = "1"
anyhow = "1"
thiserror = "2"
tracing = "0.1"
tracing-subscriber = { version = "0.3", features = ["env-filter"] }
dotenvy = "0.15"
smallvec = "1"
strum = { version = "0.27", features = ["derive"] }
