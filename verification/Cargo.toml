[package]
name = "framecast"
version = "0.1.0"
edition = "2021"
publish = false

[dependencies]
uuid = { version = "=1.29.0", features = ["v4"] }
sha2 = "=0.10.9"
hex = "=0.4.3"
chrono = { version = "=0.4.45", default-features = false, features = ["clock", "std"] }
base64 = "=0.22.1"
getrandom = "=0.2.17"
rand = "=0.8.8"
rust_decimal = "=1.43.0"
serde = { version = "=1.0.229", features = ["derive"] }
serde_json = "=1.0.154"
thiserror = "=1.0.69"
jsonwebtoken = "=9.3.1"
reqwest = { version = "=0.12.28", default-features = false, features = ["json"] }
tokio = { version = "=1.54.1", features = ["rt", "time", "macros", "net", "signal"] }
anyhow = "=1.0.104"
dotenvy = "=0.15.7"
async-trait = "=0.1.92"
axum = "0.8"
tower = "0.5"
tower-http = { version = "0.6", features = ["cors", "limit"] }
aws-config = "1"
aws-credential-types = "1"
aws-sdk-ses = "1"
