[package]
name = "jwks_cache"
version = "0.1.0"
edition = "2021"
publish = false

[dependencies]
base64 = "*"
chrono = "*"
http = "*"
http-cache-semantics = "*"
httpdate = "*"
jsonwebtoken = "*"
metrics = "*"
metrics-exporter-prometheus = { version = "*", default-features = false }
rand = "*"
redis = { version = "*", features = ["tokio-comp"] }
reqwest = { version = "*", default-features = false, features = ["rustls-tls"] }
serde = { version = "*", features = ["derive"] }
serde_json = "*"
sha2 = "*"
tokio = { version = "*", features = ["rt", "rt-multi-thread", "sync", "time", "macros"] }
tracing = "*"
url = "*"
