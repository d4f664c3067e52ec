[package]
name = "bosca_server"
version = "0.1.0"
edition = "2021"
publish = false

[dependencies]
uuid = { version = "=1.29.1", features = ["v4"] }
sha2 = "=0.10.9"
aes-gcm = "=0.10.3"
rand = "=0.9.5"
serde = { version = "=1.0.229", features = ["derive"] }
serde_json = "=1.0.154"
redis = { version = "=0.27.6", default-features = false, features = ["aio", "tokio-comp"] }
postgres-types = "=0.2.14"
tokio = { version = "=1.54.1", features = ["rt", "sync", "macros"] }
chrono = "=0.4.45"
jsonschema = { version = "*", default-features = false }
