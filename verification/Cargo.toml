[package]
name = "koko_pic_api"
version = "0.1.0"
edition = "2021"
publish = false

[dependencies]
anyhow = "=1.0.104"
async-trait = "=0.1.92"
aws-config = "=1.12.0"
aws-sdk-s3 = "=1.152.0"
aws-smithy-runtime = { version = "=1.16.1", features = ["connector-hyper-0-14-x", "tls-rustls"] }
aws-types = "=1.6.0"
axum = { version = "=0.8.9", features = ["multipart"] }
chrono = { version = "=0.4.45", features = ["serde"] }
jsonwebtoken = "=9.3.1"
lettre = { version = "=0.11.23", features = ["tokio1-native-tls"] }
regex = "=1.13.1"
serde = { version = "=1.0.229", features = ["derive"] }
serde_json = { version = "=1.0.154", features = ["preserve_order"] }
sha2 = "=0.10.9"
sqlx = { version = "=0.8.6", default-features = false, features = ["runtime-tokio", "postgres", "chrono", "derive"] }
tokio = { version = "=1.54.1", features = ["full"] }
tower = { version = "=0.5.3", features = ["util"] }
tracing = "=0.1.44"
tracing-subscriber = "=0.3.23"
uuid = { version = "=1.29.0", features = ["v4"] }
validator = { version = "=0.20.0", features = ["derive"] }
