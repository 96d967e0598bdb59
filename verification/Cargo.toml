[package]
name = "axum_blueprint"
version = "0.1.0"
edition = "2021"
publish = false

[dependencies]
ring = "=0.17.14"
aes-gcm = "=0.10.3"
rand = "=0.8.8"
hex = "=0.4.3"
uuid = { version = "=1.29.0", features = ["v4"] }
image = { version = "=0.25.10", default-features = false, features = ["jpeg", "png", "webp", "gif"] }
serde = { version = "=1.0.229", features = ["derive"] }
serde_json = "=1.0.154"
axum = { version = "=0.8.9", features = ["multipart"] }
tokio = { version = "=1.54.1", features = ["full"] }
tracing = "=0.1.44"
dotenvy = "=0.15.7"
garde = { version = "=0.22.1", features = ["derive", "regex", "email"] }
schemars = "=0.8.22"
async-trait = "=0.1.92"
thiserror = "=2.0.21"
aws-config = "=1.13.0"
aws-sdk-s3 = "=1.157.0"
sqlx = { version = "=0.8.6", default-features = false, features = ["postgres", "runtime-tokio", "macros"] }
futures = "=0.3.34"
worker = "*"
