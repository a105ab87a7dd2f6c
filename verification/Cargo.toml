[package]
name = "homedrive"
version = "0.1.0"
edition = "2021"
publish = false

[dependencies]
axum = { version = "0.8", features = ["multipart"] }
tokio = { version = "1", features = ["full"] }
tokio-util = { version = "0.7", features = ["io"] }
tower-http = { version = "0.6", features = ["cors"] }
hyper = "1"
sea-orm = { version = "1", default-features = false, features = ["macros", "with-chrono", "with-json", "sqlx-sqlite", "runtime-tokio-rustls"] }
sea-orm-migration = { version = "1", default-features = false, features = ["sqlx-sqlite", "runtime-tokio-rustls"] }
serde = { version = "1", features = ["derive"] }
serde_json = "1"
chrono = { version = "0.4", features = ["serde"] }
bcrypt = "0.17"
jsonwebtoken = "9"
base64 = "0.22"
rand = "0.8"
urlencoding = "2"
validator = { version = "0.20", features = ["derive"] }
xxhash-rust = { version = "0.8", features = ["xxh3"] }
mime_guess = "2"
rust-embed = "8"
sysinfo = { version = "0.33", default-features = false, features = ["system", "disk"] }
thiserror = "2"
tracing = "0.1"
tracing-subscriber = "0.3"
dotenvy = "0.15"
once_cell = "1"
futures = "0.3"
bytes = "1"
async-trait = "0.1"
config = { version = "0.15", default-features = false, features = ["toml"] }
