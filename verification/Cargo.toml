[package]
name = "gymapp"
version = "0.1.0"
edition = "2021"
publish = false

[dependencies]
askama = "0.12"
async-trait = "0.1"
axum = "0.6"
axum-extra = { version = "0.7", features = ["typed-routing"] }
env_logger = "0.10"
envy = "0.4"
hyper = "0.14"
lazy_static = "1"
log = "0.4"
serde = { version = "1", features = ["derive"] }
sqlx = { version = "0.7", default-features = false, features = ["runtime-tokio-rustls", "postgres", "uuid"] }
string-builder = "*"
tokio = { version = "1", features = ["full"] }
uuid = { version = "1", features = ["v4", "serde"] }
