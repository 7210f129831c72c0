[package]
name = "enterprise-architecture-platform"
version = "0.1.0"
edition = "2021"
publish = false

[dependencies]
uuid = { version = "1", features = ["v4", "v7"] }
chrono = "0.4"
semver = "1"
sha2 = "0.10"
base64 = "0.22"
rand = "0.8"
argon2 = "0.5"
serde = { version = "1", features = ["derive"] }
serde_json = "1"
anyhow = "1"
thiserror = "2"
async-trait = "0.1"
tokio = { version = "1", features = ["macros", "rt-multi-thread", "net"] }
axum = "0.8"
tower = "0.5"
tower-http = { version = "0.6", features = ["cors", "trace"] }
tracing = "0.1"
tracing-subscriber = { version = "0.3", features = ["env-filter"] }
jsonwebtoken = "9"
validator = { version = "0.20", features = ["derive"] }
sea-orm = { version = "1", default-features = false, features = ["sqlx-sqlite", "runtime-tokio-rustls", "macros", "with-chrono", "with-uuid", "with-json"] }
moka = { version = "0.12", features = ["future"] }
futures-util = "0.3"
utoipa = "5"
async-graphql = "7"
config = "0.15"
