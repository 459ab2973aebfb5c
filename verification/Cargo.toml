[package]
name = "echo_backend"
version = "0.1.0"
edition = "2021"
publish = false

[dependencies]
uuid = { version = "=1.27.0", features = ["v4"] }
chrono = "=0.4.45"
jsonwebtoken = "=9.3.1"
bcrypt = "=0.15.1"
rand = "=0.8.8"
serde = { version = "=1.0.229", features = ["derive"] }
serde_json = "=1.0.151"
tokio = { version = "=1.53.2", features = ["full"] }
tokio-stream = { version = "=0.1.19", features = ["sync"] }
axum = "=0.8.9"
async-graphql = "=7.2.1"
async-graphql-axum = "=7.2.1"
sea-orm = { version = "=1.1.20", default-features = false, features = ["macros", "with-uuid"] }
thiserror = "=1.0.69"
